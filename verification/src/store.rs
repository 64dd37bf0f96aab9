//! The store: a hash map from each known user to the place of that user's
//! list in a vector of lists.
//!
//! The two parts belong together, which the type states as its invariant.
//! A function that grows or shrinks a list therefore takes the parts out
//! of the store, leaving an empty one behind, changes them and puts them
//! back as a whole: the store is never seen with one part ahead of the
//! other. Overwriting an item in place needs no such step.

use crate::error::{TodoError, TodoErrorView};
use crate::item::{
    items_view, lemma_items_view_push, lemma_items_view_remove, lemma_items_view_update, Todo,
    TodoView,
};
use crate::model::{
    after_create, after_delete, after_update, entry, fresh_item, items_of, refusal, Lists,
};
use vstd::hash_map::StringHashMap;
use vstd::prelude::*;

verus! {

/// The todo lists of all users.
///
/// A user becomes known with the first item created for them and stays
/// known from then on, also when their last item is deleted. Every request
/// takes the store by reference for as long as it runs, so that no request
/// ever sees another half done; callers that share a store put it behind
/// one lock.
pub struct TodoLists {
    /// Where in `lists` each known user's list stands.
    slots: StringHashMap<usize>,
    /// The lists, in the order in which their users became known.
    lists: Vec<Vec<Todo>>,
}

impl TodoLists {
    /// Every known user has a list, and no two users share one.
    #[verifier::type_invariant]
    spec fn well_formed(self) -> bool {
        &&& forall|user_id: Seq<char>| #[trigger]
            self.slots@.contains_key(user_id) ==> self.slots@[user_id] < self.lists@.len()
        &&& forall|one: Seq<char>, other: Seq<char>|
            #![trigger self.slots@[one], self.slots@[other]]
            self.slots@.contains_key(one) && self.slots@.contains_key(other) && self.slots@[one]
                == self.slots@[other] ==> one == other
    }

    /// The list of every known user, as values.
    pub closed spec fn contents(self) -> Lists {
        Map::new(
            |user_id: Seq<char>| self.slots@.contains_key(user_id),
            |user_id: Seq<char>| items_view(self.lists@[self.slots@[user_id] as int]@),
        )
    }

    /// A store that knows no user.
    pub fn new() -> (store: Self)
        ensures
            store@ == Lists::empty(),
    {
        let store = TodoLists { slots: StringHashMap::new(), lists: Vec::new() };
        assert(store.contents() =~= Lists::empty());
        store
    }

    /// Appends a new item, not yet done, to the list of `user_id`, whom
    /// the store knows from now on. Returns a copy of the item and the
    /// position it has in the list. This never fails.
    pub fn create_todo_x(&mut self, user_id: &String, title: &String, disc: &String) -> (created: (
        Todo,
        usize,
    ))
        ensures
            final(self)@ == after_create(old(self)@, user_id@, title@, disc@),
            created.0@ == fresh_item(title@, disc@),
            created.1 == items_of(old(self)@, user_id@).len(),
    {
        proof {
            use_type_invariant(&*self);
        }
        let item = Todo { title: title.clone(), disc: disc.clone(), done: false };
        let copy = item.clone();
        let mut taken = TodoLists::new();
        std::mem::swap(self, &mut taken);
        let TodoLists { mut slots, mut lists } = taken;
        let known: Option<usize> = match slots.get(user_id.as_str()) {
            Some(slot) => Some(*slot),
            None => None,
        };
        match known {
            Some(slot) => {
                let index: usize = lists[slot].len();
                proof {
                    lemma_items_view_push(lists@[slot as int]@, item);
                }
                lists[slot].push(item);
                *self = TodoLists { slots, lists };
                assert(self.contents() =~= after_create(
                    old(self)@,
                    user_id@,
                    title@,
                    disc@,
                ));
                (copy, index)
            },
            None => {
                let slot: usize = lists.len();
                let mut list: Vec<Todo> = Vec::new();
                list.push(item);
                proof {
                    lemma_items_view_push(Seq::empty(), item);
                    assert(items_view(list@) =~= seq![item@]);
                }
                lists.push(list);
                slots.insert(user_id.clone(), slot);
                *self = TodoLists { slots, lists };
                assert(self.contents() =~= after_create(
                    old(self)@,
                    user_id@,
                    title@,
                    disc@,
                ));
                (copy, 0)
            },
        }
    }

    /// The list of `user_id`, in the order in which its items were created.
    /// The list is borrowed from the store, which cannot change while the
    /// borrow lasts. An unknown user is an error, not an empty list.
    pub fn get_todos(&self, user_id: &String) -> (found: Result<&Vec<Todo>, TodoError>)
        ensures
            match found {
                Ok(list) => entry(self@, user_id@) == Some(items_view(list@)),
                Err(error) => entry(self@, user_id@) is None && error@ == (TodoErrorView::UserNotFound {
                    user_id: user_id@,
                }),
            },
    {
        proof {
            use_type_invariant(self);
        }
        match self.slots.get(user_id.as_str()) {
            Some(slot) => Ok(&self.lists[*slot]),
            None => Err(TodoError::UserNotFound { user_id: user_id.clone() }),
        }
    }

    /// Overwrites the item at position `todo_id` of the list of `user_id`
    /// with the given title, description and state, all three at once. The
    /// user is looked up before the position is tested against the list as
    /// it is now; a refused request changes nothing.
    pub fn _update_todo(
        &mut self,
        user_id: &String,
        todo_id: usize,
        new_title: &String,
        disc: &String,
        done: bool,
    ) -> (outcome: Result<(), TodoError>)
        ensures
            final(self)@ == after_update(
                old(self)@,
                user_id@,
                todo_id as nat,
                (TodoView { title: new_title@, disc: disc@, done }),
            ),
            match outcome {
                Ok(_) => refusal(old(self)@, user_id@, todo_id as nat) is None,
                Err(error) => refusal(old(self)@, user_id@, todo_id as nat) == Some(error@),
            },
    {
        proof {
            use_type_invariant(&*self);
        }
        if self.slots.contains_key(user_id.as_str()) {
            let slot: usize = *self.slots.get(user_id.as_str()).unwrap();
            if todo_id < self.lists[slot].len() {
                let item = Todo { title: new_title.clone(), disc: disc.clone(), done };
                proof {
                    lemma_items_view_update(self.lists@[slot as int]@, todo_id as int, item);
                }
                self.lists[slot][todo_id] = item;
                assert(self.contents() =~= after_update(
                    old(self)@,
                    user_id@,
                    todo_id as nat,
                    (TodoView { title: new_title@, disc: disc@, done }),
                ));
                Ok(())
            } else {
                Err(TodoError::IndexOutOfRange { index: todo_id })
            }
        } else {
            Err(TodoError::UserNotFound { user_id: user_id.clone() })
        }
    }

    /// Does what [`TodoLists::_update_todo`] does, deciding on one lookup
    /// of the user.
    pub fn update_todo_x(
        &mut self,
        user_id: &String,
        todo_id: usize,
        new_title: &String,
        disc: &String,
        done: bool,
    ) -> (outcome: Result<(), TodoError>)
        ensures
            final(self)@ == after_update(
                old(self)@,
                user_id@,
                todo_id as nat,
                (TodoView { title: new_title@, disc: disc@, done }),
            ),
            match outcome {
                Ok(_) => refusal(old(self)@, user_id@, todo_id as nat) is None,
                Err(error) => refusal(old(self)@, user_id@, todo_id as nat) == Some(error@),
            },
    {
        proof {
            use_type_invariant(&*self);
        }
        match self.slots.get(user_id.as_str()) {
            None => Err(TodoError::UserNotFound { user_id: user_id.clone() }),
            Some(slot) => {
                let slot: usize = *slot;
                if todo_id < self.lists[slot].len() {
                    let item = Todo { title: new_title.clone(), disc: disc.clone(), done };
                    proof {
                        lemma_items_view_update(self.lists@[slot as int]@, todo_id as int, item);
                    }
                    self.lists[slot][todo_id] = item;
                    assert(self.contents() =~= after_update(
                        old(self)@,
                        user_id@,
                        todo_id as nat,
                        (TodoView { title: new_title@, disc: disc@, done }),
                    ));
                    Ok(())
                } else {
                    Err(TodoError::IndexOutOfRange { index: todo_id })
                }
            },
        }
    }

    /// Removes the item at position `todo_id` from the list of `user_id`
    /// and returns it. Every later item of the list moves one position
    /// down, so a position that a caller remembers for one of them is off
    /// by one afterwards. The user stays known even with no item left. The
    /// user is looked up before the position is tested against the list as
    /// it is now; a refused request changes nothing.
    pub fn _delete_todo(&mut self, user_id: &String, todo_id: usize) -> (outcome: Result<
        Todo,
        TodoError,
    >)
        ensures
            final(self)@ == after_delete(old(self)@, user_id@, todo_id as nat),
            match outcome {
                Ok(removed) => refusal(old(self)@, user_id@, todo_id as nat) is None && removed@
                    == old(self)@[user_id@][todo_id as int],
                Err(error) => refusal(old(self)@, user_id@, todo_id as nat) == Some(error@),
            },
    {
        proof {
            use_type_invariant(&*self);
        }
        if self.slots.contains_key(user_id.as_str()) {
            let slot: usize = *self.slots.get(user_id.as_str()).unwrap();
            if todo_id < self.lists[slot].len() {
                let mut taken = TodoLists::new();
                std::mem::swap(self, &mut taken);
                let TodoLists { slots, mut lists } = taken;
                proof {
                    lemma_items_view_remove(lists@[slot as int]@, todo_id as int);
                }
                let removed = lists[slot].remove(todo_id);
                *self = TodoLists { slots, lists };
                assert(self.contents() =~= after_delete(old(self)@, user_id@, todo_id as nat));
                Ok(removed)
            } else {
                Err(TodoError::IndexOutOfRange { index: todo_id })
            }
        } else {
            Err(TodoError::UserNotFound { user_id: user_id.clone() })
        }
    }

    /// Does what [`TodoLists::_delete_todo`] does, deciding on one lookup
    /// of the user.
    pub fn delete_todo_x(&mut self, user_id: &String, todo_id: usize) -> (outcome: Result<
        Todo,
        TodoError,
    >)
        ensures
            final(self)@ == after_delete(old(self)@, user_id@, todo_id as nat),
            match outcome {
                Ok(removed) => refusal(old(self)@, user_id@, todo_id as nat) is None && removed@
                    == old(self)@[user_id@][todo_id as int],
                Err(error) => refusal(old(self)@, user_id@, todo_id as nat) == Some(error@),
            },
    {
        proof {
            use_type_invariant(&*self);
        }
        match self.slots.get(user_id.as_str()) {
            None => Err(TodoError::UserNotFound { user_id: user_id.clone() }),
            Some(slot) => {
                let slot: usize = *slot;
                if self.lists[slot].len() > todo_id {
                    let mut taken = TodoLists::new();
                    std::mem::swap(self, &mut taken);
                    let TodoLists { slots, mut lists } = taken;
                    proof {
                        lemma_items_view_remove(lists@[slot as int]@, todo_id as int);
                    }
                    let removed = lists[slot].remove(todo_id);
                    *self = TodoLists { slots, lists };
                    assert(self.contents() =~= after_delete(
                        old(self)@,
                        user_id@,
                        todo_id as nat,
                    ));
                    Ok(removed)
                } else {
                    Err(TodoError::IndexOutOfRange { index: todo_id })
                }
            },
        }
    }

    /// Does what [`TodoLists::_delete_todo`] does, leaving at the first
    /// reason to refuse.
    pub fn _delete_todo_grok(&mut self, user_id: &String, todo_id: usize) -> (outcome: Result<
        Todo,
        TodoError,
    >)
        ensures
            final(self)@ == after_delete(old(self)@, user_id@, todo_id as nat),
            match outcome {
                Ok(removed) => refusal(old(self)@, user_id@, todo_id as nat) is None && removed@
                    == old(self)@[user_id@][todo_id as int],
                Err(error) => refusal(old(self)@, user_id@, todo_id as nat) == Some(error@),
            },
    {
        proof {
            use_type_invariant(&*self);
        }
        let slot: usize = match self.slots.get(user_id.as_str()) {
            Some(slot) => *slot,
            None => {
                return Err(TodoError::UserNotFound { user_id: user_id.clone() });
            },
        };
        if todo_id >= self.lists[slot].len() {
            return Err(TodoError::IndexOutOfRange { index: todo_id });
        }
        let mut taken = TodoLists::new();
        std::mem::swap(self, &mut taken);
        let TodoLists { slots, mut lists } = taken;
        proof {
            lemma_items_view_remove(lists@[slot as int]@, todo_id as int);
        }
        let removed = lists[slot].remove(todo_id);
        *self = TodoLists { slots, lists };
        assert(self.contents() =~= after_delete(old(self)@, user_id@, todo_id as nat));
        Ok(removed)
    }
}

impl View for TodoLists {
    type V = Lists;

    open spec fn view(&self) -> Lists {
        self.contents()
    }
}

} // verus!
