//! Todo items and their mathematical values.

use vstd::prelude::*;

verus! {

/// The value of a todo item: what contracts say about a [`Todo`].
pub ghost struct TodoView {
    pub title: Seq<char>,
    pub disc: Seq<char>,
    pub done: bool,
}

/// One entry of a user's todo list.
///
/// Two items are equal when their three fields are equal; an item carries
/// no identifier besides the position it currently has in its list.
#[derive(Debug, PartialEq, Eq)]
pub struct Todo {
    pub title: String,
    /// The free-text description of the item.
    pub disc: String,
    pub done: bool,
}

impl View for Todo {
    type V = TodoView;

    open spec fn view(&self) -> TodoView {
        TodoView { title: self.title@, disc: self.disc@, done: self.done }
    }
}

impl Clone for Todo {
    fn clone(&self) -> (copy: Self)
        ensures
            copy@ == self@,
    {
        Todo { title: self.title.clone(), disc: self.disc.clone(), done: self.done }
    }
}

/// The values of a run of items, in order.
pub open spec fn items_view(items: Seq<Todo>) -> Seq<TodoView> {
    items.map_values(|item: Todo| item@)
}

/// Appending an item appends its value.
pub proof fn lemma_items_view_push(items: Seq<Todo>, item: Todo)
    ensures
        items_view(items.push(item)) == items_view(items).push(item@),
{
    assert(items_view(items.push(item)) =~= items_view(items).push(item@));
}

/// Overwriting an item overwrites its value and no other.
pub proof fn lemma_items_view_update(items: Seq<Todo>, index: int, item: Todo)
    requires
        0 <= index < items.len(),
    ensures
        items_view(items.update(index, item)) == items_view(items).update(index, item@),
{
    assert(items_view(items.update(index, item)) =~= items_view(items).update(index, item@));
}

/// Removing an item removes its value and closes the gap.
pub proof fn lemma_items_view_remove(items: Seq<Todo>, index: int)
    requires
        0 <= index < items.len(),
    ensures
        items_view(items.remove(index)) == items_view(items).remove(index),
{
    assert(items_view(items.remove(index)) =~= items_view(items).remove(index));
}

} // verus!
