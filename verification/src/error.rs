//! The ways in which a request on the store is refused.

use vstd::prelude::*;

verus! {

/// The value of a [`TodoError`].
pub ghost enum TodoErrorView {
    UserNotFound { user_id: Seq<char> },
    IndexOutOfRange { index: nat },
}

/// Why the store refused a request. A refused request leaves the store as
/// it was, and asking again with the same arguments is refused again.
#[derive(Debug, PartialEq, Eq)]
pub enum TodoError {
    /// No item was ever created for this user.
    UserNotFound { user_id: String },
    /// The user's list has no item at this position.
    IndexOutOfRange { index: usize },
}

impl View for TodoError {
    type V = TodoErrorView;

    open spec fn view(&self) -> TodoErrorView {
        match *self {
            TodoError::UserNotFound { user_id } => TodoErrorView::UserNotFound {
                user_id: user_id@,
            },
            TodoError::IndexOutOfRange { index } => TodoErrorView::IndexOutOfRange {
                index: index as nat,
            },
        }
    }
}

impl Clone for TodoError {
    fn clone(&self) -> (copy: Self)
        ensures
            copy@ == self@,
    {
        match self {
            TodoError::UserNotFound { user_id } => TodoError::UserNotFound {
                user_id: user_id.clone(),
            },
            TodoError::IndexOutOfRange { index } => TodoError::IndexOutOfRange { index: *index },
        }
    }
}

} // verus!
