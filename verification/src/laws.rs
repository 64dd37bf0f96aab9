//! What callers may rely on, proved of the model that the contracts of
//! [`TodoLists`](crate::store::TodoLists) are stated in.

use crate::error::TodoErrorView;
use crate::item::TodoView;
use crate::model::{
    after_create, after_delete, after_update, changes_of, creates, effect, entry, fresh_item,
    items_of, list_effect, list_replay, refusal, replay, Change, Lists,
};
use vstd::prelude::*;

verus! {

/// A request changes the list that it addresses as `list_effect` says.
proof fn lemma_effect_on_own_list(lists: Lists, change: Change)
    ensures
        entry(effect(lists, change), change.user_id()) == list_effect(
            entry(lists, change.user_id()),
            change,
        ),
{
}

/// A request leaves the list of every other user as it was.
proof fn lemma_effect_on_other_list(lists: Lists, change: Change, user_id: Seq<char>)
    requires
        change.user_id() != user_id,
    ensures
        entry(effect(lists, change), user_id) == entry(lists, user_id),
{
}

/// After any run of requests, the list of a user is what the requests that
/// address this user make of the list the user had before, in the order in
/// which they came: no request for another user shows in it, and none of
/// the user's own is lost or taken twice.
pub proof fn law_list_follows_own_changes(lists: Lists, changes: Seq<Change>, user_id: Seq<char>)
    ensures
        entry(replay(lists, changes), user_id) == list_replay(
            entry(lists, user_id),
            changes_of(changes, user_id),
        ),
    decreases changes.len(),
{
    reveal(Seq::filter);
    if changes.len() > 0 {
        let earlier = changes.drop_last();
        let last = changes.last();
        law_list_follows_own_changes(lists, earlier, user_id);
        if last.user_id() == user_id {
            lemma_effect_on_own_list(replay(lists, earlier), last);
            assert(changes_of(changes, user_id).drop_last() =~= changes_of(earlier, user_id));
        } else {
            lemma_effect_on_other_list(replay(lists, earlier), last, user_id);
        }
    }
}

/// Right after an item was created for a user, the user is known, the item
/// is the last of the user's list with nothing done yet, and the items
/// that were there before stand before it, unchanged.
pub proof fn law_created_item_is_last(
    lists: Lists,
    user_id: Seq<char>,
    title: Seq<char>,
    disc: Seq<char>,
)
    ensures
        entry(after_create(lists, user_id, title, disc), user_id) is Some,
        after_create(lists, user_id, title, disc)[user_id].last() == (TodoView {
            title,
            disc,
            done: false,
        }),
        after_create(lists, user_id, title, disc)[user_id].drop_last() == items_of(lists, user_id),
        forall|other: Seq<char>|
            other != user_id ==> entry(after_create(lists, user_id, title, disc), other) == entry(
                lists,
                other,
            ),
{
    assert(after_create(lists, user_id, title, disc)[user_id].drop_last() =~= items_of(
        lists,
        user_id,
    ));
}

/// An update of a valid position changes the item at that position and
/// nothing else: the list keeps its length, every other item of it stays
/// as it was, and so does every other user's list.
pub proof fn law_update_changes_one_item(
    lists: Lists,
    user_id: Seq<char>,
    index: nat,
    item: TodoView,
)
    requires
        lists.contains_key(user_id),
        index < lists[user_id].len(),
    ensures
        refusal(lists, user_id, index) is None,
        after_update(lists, user_id, index, item).dom() == lists.dom(),
        after_update(lists, user_id, index, item)[user_id].len() == lists[user_id].len(),
        after_update(lists, user_id, index, item)[user_id][index as int] == item,
        forall|at: int|
            0 <= at < lists[user_id].len() && at != index ==> after_update(
                lists,
                user_id,
                index,
                item,
            )[user_id][at] == lists[user_id][at],
        forall|other: Seq<char>|
            other != user_id ==> entry(after_update(lists, user_id, index, item), other) == entry(
                lists,
                other,
            ),
{
    assert(after_update(lists, user_id, index, item).dom() =~= lists.dom());
}

/// A delete of a valid position removes one item: the list is shorter by
/// one, the items before the position keep their positions, every item
/// after it stands one position earlier, and the user stays known. Every
/// other user's list stays as it was.
pub proof fn law_delete_shifts_later_items(lists: Lists, user_id: Seq<char>, index: nat)
    requires
        lists.contains_key(user_id),
        index < lists[user_id].len(),
    ensures
        refusal(lists, user_id, index) is None,
        after_delete(lists, user_id, index).dom() == lists.dom(),
        after_delete(lists, user_id, index)[user_id].len() == lists[user_id].len() - 1,
        forall|at: int|
            0 <= at < index ==> after_delete(lists, user_id, index)[user_id][at]
                == lists[user_id][at],
        forall|at: int|
            index < at < lists[user_id].len() ==> after_delete(lists, user_id, index)[user_id][at
                - 1] == lists[user_id][at],
        forall|other: Seq<char>|
            other != user_id ==> entry(after_delete(lists, user_id, index), other) == entry(
                lists,
                other,
            ),
{
    assert(after_delete(lists, user_id, index).dom() =~= lists.dom());
}

/// For a user whom the store does not know, a listing finds nothing, and
/// an update or a delete is refused with `UserNotFound`, whatever the
/// position, and leaves the store as it was; so the same request is
/// refused in the same way however often it is made.
pub proof fn law_unknown_user_is_refused(
    lists: Lists,
    user_id: Seq<char>,
    index: nat,
    item: TodoView,
)
    requires
        !lists.contains_key(user_id),
    ensures
        entry(lists, user_id) is None,
        refusal(lists, user_id, index) == Some(TodoErrorView::UserNotFound { user_id }),
        after_update(lists, user_id, index, item) == lists,
        after_delete(lists, user_id, index) == lists,
{
}

/// The position one past the last item of a known user's list is never
/// valid: an update or a delete there is refused with `IndexOutOfRange`
/// and leaves the store as it was.
pub proof fn law_one_past_last_is_refused(
    lists: Lists,
    user_id: Seq<char>,
    index: nat,
    item: TodoView,
)
    requires
        lists.contains_key(user_id),
        index == lists[user_id].len(),
    ensures
        refusal(lists, user_id, index) == Some(TodoErrorView::IndexOutOfRange { index }),
        after_update(lists, user_id, index, item) == lists,
        after_delete(lists, user_id, index) == lists,
{
}

/// A run of creates for one user, with nothing else between them, appends
/// one item for each, in the order of the requests: none is lost and none
/// is there twice. After the first of them the user is known.
pub proof fn law_creates_append_each_once(
    lists: Lists,
    user_id: Seq<char>,
    titles: Seq<Seq<char>>,
    discs: Seq<Seq<char>>,
)
    requires
        titles.len() == discs.len(),
    ensures
        items_of(replay(lists, creates(user_id, titles, discs)), user_id) == items_of(
            lists,
            user_id,
        ) + Seq::new(titles.len(), |at: int| fresh_item(titles[at], discs[at])),
        titles.len() > 0 ==> replay(lists, creates(user_id, titles, discs)).contains_key(user_id),
    decreases titles.len(),
{
    let before = items_of(lists, user_id);
    let added = Seq::new(titles.len(), |at: int| fresh_item(titles[at], discs[at]));
    if titles.len() == 0 {
        assert(before + added =~= before);
    } else {
        law_creates_append_each_once(lists, user_id, titles.drop_last(), discs.drop_last());
        assert(creates(user_id, titles, discs).drop_last() =~= creates(
            user_id,
            titles.drop_last(),
            discs.drop_last(),
        ));
        let added_earlier = Seq::new(
            titles.drop_last().len(),
            |at: int| fresh_item(titles.drop_last()[at], discs.drop_last()[at]),
        );
        assert(before + added =~= (before + added_earlier).push(
            fresh_item(titles.last(), discs.last()),
        ));
    }
}

} // verus!
