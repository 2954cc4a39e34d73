//! The three operations on a post, and the rules they follow.
//!
//! Each operation checks everything before it changes anything: the `*_rejection`
//! functions give the checks in their order, the `after_*` functions the slot that the
//! operation leaves behind.

use vstd::prelude::*;
use crate::clock::unix_timestamp;
use crate::context::{CreatePost, DeletePost, UpdatePost};
use crate::error::{AllocationError, BlogError, Error};
use crate::post::{fits, text_fits, Post, PostView};
use crate::slot::{Slot, SlotView};

verus! {

/// Why a creation is rejected, if it is: the slot must never have been used, and both
/// texts must fit.
pub open spec fn create_rejection(
    slot: SlotView,
    title: Seq<char>,
    content: Seq<char>,
) -> Option<Error> {
    if !(slot is Vacant) {
        Some(Error::Allocation(AllocationError::StorageUnavailable))
    } else if !(text_fits(title) && text_fits(content)) {
        Some(Error::Allocation(AllocationError::BudgetExceeded))
    } else {
        None
    }
}

/// Why an update is rejected, if it is: the slot must hold a live post, the caller must be
/// its author, and both new texts must fit.
pub open spec fn update_rejection(
    slot: SlotView,
    caller: Seq<u8>,
    title: Seq<char>,
    content: Seq<char>,
) -> Option<Error> {
    match slot {
        SlotView::Active(post) => {
            if post.author != caller {
                Some(Error::Blog(BlogError::UnauthorizedPostUpdate))
            } else if !(text_fits(title) && text_fits(content)) {
                Some(Error::Allocation(AllocationError::BudgetExceeded))
            } else {
                None
            }
        },
        _ => Some(Error::PostNotFound),
    }
}

/// Why a deletion is rejected, if it is: the slot must hold a live post and the caller
/// must be its author.
pub open spec fn delete_rejection(slot: SlotView, caller: Seq<u8>) -> Option<Error> {
    match slot {
        SlotView::Active(post) => {
            if post.author != caller {
                Some(Error::Blog(BlogError::UnauthorizedPostDeletion))
            } else {
                None
            }
        },
        _ => Some(Error::PostNotFound),
    }
}

/// What an operation returns: the rejection as an error, or success where there is none.
pub open spec fn verdict(rejection: Option<Error>) -> Result<(), Error> {
    match rejection {
        Some(e) => Err(e),
        None => Ok(()),
    }
}

/// The slot after a creation at time `now`. A rejected creation leaves it as it was.
pub open spec fn after_create(
    slot: SlotView,
    caller: Seq<u8>,
    title: Seq<char>,
    content: Seq<char>,
    now: int,
) -> SlotView {
    if create_rejection(slot, title, content) is Some {
        slot
    } else {
        SlotView::Active(PostView { title, content, author: caller, timestamp: now })
    }
}

/// The slot after an update. A rejected update leaves it as it was.
pub open spec fn after_update(
    slot: SlotView,
    caller: Seq<u8>,
    title: Seq<char>,
    content: Seq<char>,
) -> SlotView {
    match slot {
        SlotView::Active(post) if update_rejection(slot, caller, title, content) is None => {
            SlotView::Active(
                PostView { title, content, author: post.author, timestamp: post.timestamp },
            )
        },
        _ => slot,
    }
}

/// The slot after a deletion. A rejected deletion leaves it as it was.
pub open spec fn after_delete(slot: SlotView, caller: Seq<u8>) -> SlotView {
    if delete_rejection(slot, caller) is Some {
        slot
    } else {
        SlotView::Closed { released_to: caller }
    }
}

/// Decides whether a creation in `slot` is rejected, and why.
fn create_refusal(slot: &Slot, title: &str, content: &str) -> (refusal: Option<Error>)
    ensures
        refusal == create_rejection(slot@, title@, content@),
{
    match slot {
        Slot::Vacant => {
            if fits(title) && fits(content) {
                None
            } else {
                Some(Error::Allocation(AllocationError::BudgetExceeded))
            }
        },
        _ => Some(Error::Allocation(AllocationError::StorageUnavailable)),
    }
}

/// Creates the post at the time `now`: in a slot that was never used, with the caller as
/// author. Rejected, and without effect, where the slot has been used or a text does not fit.
pub fn create_post_at(
    ctx: &mut CreatePost,
    title: String,
    content: String,
    now: i64,
) -> (done: Result<(), Error>)
    ensures
        done == verdict(create_rejection(old(ctx).post@, title@, content@)),
        final(ctx).post@ == after_create(
            old(ctx).post@,
            old(ctx).author@,
            title@,
            content@,
            now as int,
        ),
        final(ctx).author == old(ctx).author,
        done is Err ==> *final(ctx) == *old(ctx),
        old(ctx).post@.well_formed() ==> final(ctx).post@.well_formed(),
{
    match create_refusal(&ctx.post, title.as_str(), content.as_str()) {
        Some(e) => Err(e),
        None => {
            ctx.post = Slot::Active(Post { title, content, author: ctx.author, timestamp: now });
            Ok(())
        },
    }
}

/// Creates the post at the time that the clock gives. What can be decided without the
/// clock is decided first, so the clock is asked once, and only for a creation that nothing
/// else stands against. Where the clock gives no time, nothing is created.
pub fn create_post(
    ctx: &mut CreatePost,
    title: String,
    content: String,
) -> (done: Result<(), Error>)
    ensures
        create_rejection(old(ctx).post@, title@, content@) is Some ==> done == verdict(
            create_rejection(old(ctx).post@, title@, content@),
        ),
        create_rejection(old(ctx).post@, title@, content@) is None ==> done is Ok || done
            == Err::<(), Error>(Error::ClockUnavailable),
        done is Ok ==> exists|now: i64|
            final(ctx).post@ == #[trigger] after_create(
                old(ctx).post@,
                old(ctx).author@,
                title@,
                content@,
                now as int,
            ),
        final(ctx).author == old(ctx).author,
        done is Err ==> *final(ctx) == *old(ctx),
        old(ctx).post@.well_formed() ==> final(ctx).post@.well_formed(),
{
    if let Some(e) = create_refusal(&ctx.post, title.as_str(), content.as_str()) {
        return Err(e);
    }
    match unix_timestamp() {
        Ok(now) => create_post_at(ctx, title, content, now),
        Err(_) => Err(Error::ClockUnavailable),
    }
}

/// Replaces title and content of a live post, for its author only; author and timestamp
/// stay. Rejected, and without effect, where there is no live post, the caller is not its
/// author, or a text does not fit.
pub fn update_post(
    ctx: &mut UpdatePost,
    title: String,
    content: String,
) -> (done: Result<(), Error>)
    ensures
        done == verdict(update_rejection(old(ctx).post@, old(ctx).author@, title@, content@)),
        final(ctx).post@ == after_update(old(ctx).post@, old(ctx).author@, title@, content@),
        final(ctx).author == old(ctx).author,
        done is Err ==> *final(ctx) == *old(ctx),
        old(ctx).post@.well_formed() ==> final(ctx).post@.well_formed(),
{
    match &mut ctx.post {
        Slot::Active(post) => {
            if !(post.author == ctx.author) {
                return Err(Error::Blog(BlogError::UnauthorizedPostUpdate));
            }
            if !(fits(title.as_str()) && fits(content.as_str())) {
                return Err(Error::Allocation(AllocationError::BudgetExceeded));
            }
            post.title = title;
            post.content = content;
            Ok(())
        },
        _ => Err(Error::PostNotFound),
    }
}

/// Deletes a live post, for its author only: the slot is closed for good and what was
/// reserved for it goes back to the author. Rejected, and without effect, where there is
/// no live post or the caller is not its author.
pub fn delete_post(ctx: &mut DeletePost) -> (done: Result<(), Error>)
    ensures
        done == verdict(delete_rejection(old(ctx).post@, old(ctx).author@)),
        final(ctx).post@ == after_delete(old(ctx).post@, old(ctx).author@),
        final(ctx).author == old(ctx).author,
        done is Err ==> *final(ctx) == *old(ctx),
        old(ctx).post@.well_formed() ==> final(ctx).post@.well_formed(),
{
    match &ctx.post {
        Slot::Active(post) => {
            if !(post.author == ctx.author) {
                return Err(Error::Blog(BlogError::UnauthorizedPostDeletion));
            }
        },
        _ => {
            return Err(Error::PostNotFound);
        },
    }
    ctx.post = Slot::Closed { released_to: ctx.author };
    Ok(())
}

} // verus!
