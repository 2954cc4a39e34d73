//! What each operation works on: the slot of the post, and the caller.

use vstd::prelude::*;
use crate::identity::Identity;
use crate::slot::Slot;

verus! {

/// What one `create_post` call works on.
#[derive(Clone, Debug, PartialEq, Eq)]
pub struct CreatePost {
    /// The slot in which the post is created.
    pub post: Slot,
    /// The caller, who reserves the slot and becomes the author.
    pub author: Identity,
}

/// What one `update_post` call works on.
#[derive(Clone, Debug, PartialEq, Eq)]
pub struct UpdatePost {
    /// The slot of the post to change.
    pub post: Slot,
    /// The caller, who must be the author of the post.
    pub author: Identity,
}

/// What one `delete_post` call works on.
#[derive(Clone, Debug, PartialEq, Eq)]
pub struct DeletePost {
    /// The slot of the post to delete.
    pub post: Slot,
    /// The caller, who must be the author of the post and gets back what was reserved.
    pub author: Identity,
}

} // verus!
