//! The four requests that a store serves, as the records of arguments that
//! arrive from outside and the functions that carry them out.
//!
//! Each function performs exactly one operation on the store and hands
//! back its result as it is: a refusal stays an error, to be answered
//! differently from a success, and a listing for an unknown user is not
//! turned into an empty list.

use crate::error::{TodoError, TodoErrorView};
use crate::item::{items_view, Todo, TodoView};
use crate::model::{after_create, after_delete, after_update, entry, fresh_item, items_of, refusal};
use crate::store::TodoLists;
use vstd::prelude::*;

verus! {

/// The arguments of a create request.
pub struct TodoPayload {
    pub user_id: String,
    pub title: String,
    pub disc: String,
}

/// The arguments of an update request. `todo_id` is the position of the
/// item in the user's list, counted from zero.
pub struct UpdateTodoPayload {
    pub user_id: String,
    pub todo_id: usize,
    pub new_title: String,
    pub new_disc: String,
    pub done: bool,
}

/// The arguments of a request for a user's whole list.
pub struct ViewAllTodos {
    pub user_id: String,
}

/// The arguments of a delete request. `todo_id` is the position of the
/// item in the user's list, counted from zero.
pub struct DeleteTodo {
    pub user_id: String,
    pub todo_id: usize,
}

/// Creates the item that `payload` describes. Returns a copy of it and the
/// position it has in its owner's list. This never fails.
pub fn create_todo(store: &mut TodoLists, payload: &TodoPayload) -> (created: (Todo, usize))
    ensures
        final(store)@ == after_create(old(store)@, payload.user_id@, payload.title@, payload.disc@),
        created.0@ == fresh_item(payload.title@, payload.disc@),
        created.1 == items_of(old(store)@, payload.user_id@).len(),
{
    store.create_todo_x(&payload.user_id, &payload.title, &payload.disc)
}

/// Overwrites the item that `payload` addresses with the values that it
/// brings.
pub fn update_todo(store: &mut TodoLists, payload: &UpdateTodoPayload) -> (outcome: Result<
    (),
    TodoError,
>)
    ensures
        final(store)@ == after_update(
            old(store)@,
            payload.user_id@,
            payload.todo_id as nat,
            (TodoView { title: payload.new_title@, disc: payload.new_disc@, done: payload.done }),
        ),
        match outcome {
            Ok(_) => refusal(old(store)@, payload.user_id@, payload.todo_id as nat) is None,
            Err(error) => refusal(old(store)@, payload.user_id@, payload.todo_id as nat) == Some(
                error@,
            ),
        },
{
    store.update_todo_x(
        &payload.user_id,
        payload.todo_id,
        &payload.new_title,
        &payload.new_disc,
        payload.done,
    )
}

/// A copy of the list of the user that `query` names, in the order in
/// which its items were created. The copy is the caller's own: nothing
/// that happens to the store afterwards shows in it.
pub fn get_todo(store: &TodoLists, query: &ViewAllTodos) -> (found: Result<Vec<Todo>, TodoError>)
    ensures
        match found {
            Ok(list) => entry(store@, query.user_id@) == Some(items_view(list@)),
            Err(error) => entry(store@, query.user_id@) is None && error@ == (TodoErrorView::UserNotFound {
                user_id: query.user_id@,
            }),
        },
{
    match store.get_todos(&query.user_id) {
        Ok(list) => {
            let copy = list.clone();
            assert(items_view(copy@) =~= items_view(list@));
            Ok(copy)
        },
        Err(error) => Err(error),
    }
}

/// Removes the item that `payload` addresses and returns it.
pub fn delete_todo(store: &mut TodoLists, payload: &DeleteTodo) -> (outcome: Result<
    Todo,
    TodoError,
>)
    ensures
        final(store)@ == after_delete(old(store)@, payload.user_id@, payload.todo_id as nat),
        match outcome {
            Ok(removed) => refusal(old(store)@, payload.user_id@, payload.todo_id as nat) is None
                && removed@ == old(store)@[payload.user_id@][payload.todo_id as int],
            Err(error) => refusal(old(store)@, payload.user_id@, payload.todo_id as nat) == Some(
                error@,
            ),
        },
{
    store.delete_todo_x(&payload.user_id, payload.todo_id)
}

} // verus!
