//! The reasons for which an operation is rejected.

use vstd::prelude::*;

verus! {

/// The two ways in which the ownership rule turns a caller away.
#[derive(Clone, Copy, Debug, PartialEq, Eq, Structural)]
pub enum BlogError {
    /// The caller of an update is not the author of the post.
    UnauthorizedPostUpdate,
    /// The caller of a deletion is not the author of the post.
    UnauthorizedPostDeletion,
}

impl BlogError {
    /// The wording of each message.
    pub open spec fn message_text(self) -> Seq<char> {
        match self {
            BlogError::UnauthorizedPostUpdate => "You are not authorized to update this post"@,
            BlogError::UnauthorizedPostDeletion => "You are not authorized to delete this post"@,
        }
    }

    /// The message of this error, for the caller who was turned away.
    pub fn message(&self) -> (text: String)
        ensures
            text@ == self.message_text(),
    {
        match self {
            BlogError::UnauthorizedPostUpdate => {
                "You are not authorized to update this post".to_owned()
            },
            BlogError::UnauthorizedPostDeletion => {
                "You are not authorized to delete this post".to_owned()
            },
        }
    }
}

/// Why storage refused a record.
#[derive(Clone, Copy, Debug, PartialEq, Eq, Structural)]
pub enum AllocationError {
    /// A text field does not fit the bytes reserved for it.
    BudgetExceeded,
    /// The slot has been used before and cannot be reserved again.
    StorageUnavailable,
}

/// Every reason for which an operation is rejected. A rejected operation changes nothing.
#[derive(Clone, Copy, Debug, PartialEq, Eq, Structural)]
pub enum Error {
    /// The ownership rule refused the caller.
    Blog(BlogError),
    /// Storage refused the record.
    Allocation(AllocationError),
    /// The slot holds no live post.
    PostNotFound,
    /// The clock gave no timestamp.
    ClockUnavailable,
}

} // verus!
