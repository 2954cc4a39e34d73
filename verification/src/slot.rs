//! The storage behind a record handle.

use vstd::prelude::*;
use crate::identity::Identity;
use crate::post::{Post, PostView};

verus! {

/// The storage behind one record handle, through its whole life: vacant until a post is
/// created in it, active while the post lives, closed for good once the post is deleted.
#[derive(Clone, Debug, PartialEq, Eq)]
pub enum Slot {
    /// Never used: no post was ever created here.
    Vacant,
    /// Holds a live post.
    Active(Post),
    /// The post was deleted and what was reserved for it went back to `released_to`.
    Closed { released_to: Identity },
}

/// What a slot is, as a mathematical value.
pub enum SlotView {
    Vacant,
    Active(PostView),
    Closed { released_to: Seq<u8> },
}

impl View for Slot {
    type V = SlotView;

    open spec fn view(&self) -> SlotView {
        match *self {
            Slot::Vacant => SlotView::Vacant,
            Slot::Active(post) => SlotView::Active(post@),
            Slot::Closed { released_to } => SlotView::Closed { released_to: released_to@ },
        }
    }
}

impl SlotView {
    /// The live post, if there is one.
    pub open spec fn post(self) -> Option<PostView> {
        match self {
            SlotView::Active(post) => Some(post),
            _ => None,
        }
    }

    /// Holds where the live post, if there is one, fits the bytes reserved for it.
    pub open spec fn well_formed(self) -> bool {
        self matches SlotView::Active(post) ==> post.within_budget()
    }
}

impl Slot {
    /// Reads the record: the live post, or `None` where none exists.
    pub fn read(&self) -> (found: Option<&Post>)
        ensures
            found is Some <==> self@.post() is Some,
            found matches Some(post) ==> *self == Slot::Active(*post) && self@.post() == Some(
                post@,
            ),
    {
        match self {
            Slot::Active(post) => Some(post),
            _ => None,
        }
    }
}

} // verus!
