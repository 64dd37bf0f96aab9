//! The mathematical model of the store: a map from user identifiers to
//! sequences of item values, and what each request makes of it.
//!
//! A user whom the map does not hold is unknown to the store. A user whom
//! it holds with an empty sequence is known and has no items: the two are
//! different states.

use crate::error::TodoErrorView;
use crate::item::TodoView;
use vstd::prelude::*;

verus! {

/// The contents of a store: the list of every user it knows.
pub type Lists = Map<Seq<char>, Seq<TodoView>>;

/// The value of a newly created item: never done yet.
pub open spec fn fresh_item(title: Seq<char>, disc: Seq<char>) -> TodoView {
    TodoView { title, disc, done: false }
}

/// The list of `user_id`, or `None` where the store does not know the user.
pub open spec fn entry(lists: Lists, user_id: Seq<char>) -> Option<Seq<TodoView>> {
    if lists.contains_key(user_id) {
        Some(lists[user_id])
    } else {
        None
    }
}

/// The items of `user_id` in order, none where the store does not know
/// the user.
pub open spec fn items_of(lists: Lists, user_id: Seq<char>) -> Seq<TodoView> {
    match entry(lists, user_id) {
        Some(list) => list,
        None => Seq::empty(),
    }
}

/// Why a request that addresses position `index` of the list of `user_id`
/// is refused, or `None` where it is carried out. The user is looked up
/// first, so an unknown user is reported whatever the position.
pub open spec fn refusal(lists: Lists, user_id: Seq<char>, index: nat) -> Option<TodoErrorView> {
    if !lists.contains_key(user_id) {
        Some(TodoErrorView::UserNotFound { user_id })
    } else if index >= lists[user_id].len() {
        Some(TodoErrorView::IndexOutOfRange { index })
    } else {
        None
    }
}

/// The store after an item with this title and description was created
/// for `user_id`: the item stands last in the user's list, which begins
/// with it where the user was unknown.
pub open spec fn after_create(
    lists: Lists,
    user_id: Seq<char>,
    title: Seq<char>,
    disc: Seq<char>,
) -> Lists {
    lists.insert(user_id, items_of(lists, user_id).push(fresh_item(title, disc)))
}

/// The store after a request to overwrite position `index` of the list of
/// `user_id` with `item`: unchanged where the request is refused.
pub open spec fn after_update(
    lists: Lists,
    user_id: Seq<char>,
    index: nat,
    item: TodoView,
) -> Lists {
    if refusal(lists, user_id, index) is None {
        lists.insert(user_id, lists[user_id].update(index as int, item))
    } else {
        lists
    }
}

/// The store after a request to delete position `index` of the list of
/// `user_id`: every later item stands one position earlier, and the user
/// stays known even with no item left. Unchanged where the request is
/// refused.
pub open spec fn after_delete(lists: Lists, user_id: Seq<char>, index: nat) -> Lists {
    if refusal(lists, user_id, index) is None {
        lists.insert(user_id, lists[user_id].remove(index as int))
    } else {
        lists
    }
}

/// One request that may change the store.
pub ghost enum Change {
    Create { user_id: Seq<char>, title: Seq<char>, disc: Seq<char> },
    Update { user_id: Seq<char>, index: nat, item: TodoView },
    Delete { user_id: Seq<char>, index: nat },
}

impl Change {
    /// The user whose list the request addresses.
    pub open spec fn user_id(self) -> Seq<char> {
        match self {
            Change::Create { user_id, .. } => user_id,
            Change::Update { user_id, .. } => user_id,
            Change::Delete { user_id, .. } => user_id,
        }
    }
}

/// The store after one request.
pub open spec fn effect(lists: Lists, change: Change) -> Lists {
    match change {
        Change::Create { user_id, title, disc } => after_create(lists, user_id, title, disc),
        Change::Update { user_id, index, item } => after_update(lists, user_id, index, item),
        Change::Delete { user_id, index } => after_delete(lists, user_id, index),
    }
}

/// The store after a run of requests, carried out in order.
pub open spec fn replay(lists: Lists, changes: Seq<Change>) -> Lists
    decreases changes.len(),
{
    if changes.len() == 0 {
        lists
    } else {
        effect(replay(lists, changes.drop_last()), changes.last())
    }
}

/// What one request makes of the list that it addresses, `None` standing
/// for the list of an unknown user.
pub open spec fn list_effect(list: Option<Seq<TodoView>>, change: Change) -> Option<
    Seq<TodoView>,
> {
    match change {
        Change::Create { title, disc, .. } => match list {
            Some(items) => Some(items.push(fresh_item(title, disc))),
            None => Some(Seq::empty().push(fresh_item(title, disc))),
        },
        Change::Update { index, item, .. } => match list {
            Some(items) if index < items.len() => Some(items.update(index as int, item)),
            _ => list,
        },
        Change::Delete { index, .. } => match list {
            Some(items) if index < items.len() => Some(items.remove(index as int)),
            _ => list,
        },
    }
}

/// What a run of requests, all taken to address the same list, makes of it.
pub open spec fn list_replay(list: Option<Seq<TodoView>>, changes: Seq<Change>) -> Option<
    Seq<TodoView>,
>
    decreases changes.len(),
{
    if changes.len() == 0 {
        list
    } else {
        list_effect(list_replay(list, changes.drop_last()), changes.last())
    }
}

/// The requests among `changes` that address `user_id`, in their order.
pub open spec fn changes_of(changes: Seq<Change>, user_id: Seq<char>) -> Seq<Change> {
    changes.filter(|change: Change| change.user_id() == user_id)
}

/// A run of creates for `user_id`, one for each title with its
/// description.
pub open spec fn creates(user_id: Seq<char>, titles: Seq<Seq<char>>, discs: Seq<Seq<char>>) -> Seq<
    Change,
> {
    Seq::new(
        titles.len(),
        |at: int| Change::Create { user_id, title: titles[at], disc: discs[at] },
    )
}

} // verus!
