//! What holds of the operations for every slot, caller and payload.

use vstd::prelude::*;
use crate::error::{AllocationError, BlogError, Error};
use crate::identity::IDENTITY_LEN;
use crate::manager::{
    after_create, after_delete, after_update, create_rejection, delete_rejection,
    update_rejection,
};
use crate::post::{text_fits, PostView, SPACE};
use crate::slot::SlotView;

verus! {

/// A creation in a vacant slot, with texts that fit, is accepted, and reading the slot
/// right after it gives a post with exactly the title and content supplied, the caller as
/// author and the clock value as timestamp.
pub proof fn lemma_create_then_read(
    caller: Seq<u8>,
    title: Seq<char>,
    content: Seq<char>,
    now: int,
)
    requires
        text_fits(title),
        text_fits(content),
    ensures
        create_rejection(SlotView::Vacant, title, content) is None,
        after_create(SlotView::Vacant, caller, title, content, now).post() == Some(
            (PostView { title, content, author: caller, timestamp: now }),
        ),
{
}

/// Whoever is not the author of a live post can neither update nor delete it: both are
/// rejected as unauthorized, whatever the payload, and the slot stays exactly as it was.
pub proof fn lemma_stranger_changes_nothing(
    slot: SlotView,
    caller: Seq<u8>,
    title: Seq<char>,
    content: Seq<char>,
)
    requires
        slot matches SlotView::Active(post) && post.author != caller,
    ensures
        update_rejection(slot, caller, title, content) == Some(
            Error::Blog(BlogError::UnauthorizedPostUpdate),
        ),
        delete_rejection(slot, caller) == Some(Error::Blog(BlogError::UnauthorizedPostDeletion)),
        after_update(slot, caller, title, content) == slot,
        after_delete(slot, caller) == slot,
{
}

/// An update by the author leaves author and timestamp as they were. Texts that fit
/// replace title and content; texts that do not fit leave the whole post as it was.
pub proof fn lemma_update_changes_only_texts(
    post: PostView,
    title: Seq<char>,
    content: Seq<char>,
)
    ensures
        text_fits(title) && text_fits(content) ==> after_update(
            SlotView::Active(post),
            post.author,
            title,
            content,
        ) == SlotView::Active(
            (PostView { title, content, author: post.author, timestamp: post.timestamp }),
        ),
        !(text_fits(title) && text_fits(content)) ==> after_update(
            SlotView::Active(post),
            post.author,
            title,
            content,
        ) == SlotView::Active(post),
{
}

/// Once the author has deleted a post, the slot holds nothing to read, went back to the
/// author, and is closed for good: every later update and deletion finds no post, every
/// later creation finds the storage unavailable, and none of them changes the slot.
pub proof fn lemma_deleted_stays_deleted(
    slot: SlotView,
    caller: Seq<u8>,
    later_caller: Seq<u8>,
    title: Seq<char>,
    content: Seq<char>,
    now: int,
)
    requires
        delete_rejection(slot, caller) is None,
    ensures
        slot matches SlotView::Active(post) && post.author == caller,
        after_delete(slot, caller) == (SlotView::Closed { released_to: caller }),
        after_delete(slot, caller).post() is None,
        update_rejection(after_delete(slot, caller), later_caller, title, content) == Some(
            Error::PostNotFound,
        ),
        delete_rejection(after_delete(slot, caller), later_caller) == Some(Error::PostNotFound),
        create_rejection(after_delete(slot, caller), title, content) == Some(
            Error::Allocation(AllocationError::StorageUnavailable),
        ),
        after_update(after_delete(slot, caller), later_caller, title, content) == after_delete(
            slot,
            caller,
        ),
        after_delete(after_delete(slot, caller), later_caller) == after_delete(slot, caller),
        after_create(after_delete(slot, caller), later_caller, title, content, now)
            == after_delete(slot, caller),
{
}

/// The same update, made twice, ends in the same slot as made once, and is accepted or
/// rejected the second time as it was the first.
pub proof fn lemma_update_twice_is_update_once(
    slot: SlotView,
    caller: Seq<u8>,
    title: Seq<char>,
    content: Seq<char>,
)
    ensures
        after_update(after_update(slot, caller, title, content), caller, title, content)
            == after_update(slot, caller, title, content),
        update_rejection(after_update(slot, caller, title, content), caller, title, content)
            == update_rejection(slot, caller, title, content),
{
}

/// Author and timestamp of a live post are frozen: whoever calls an update or a creation
/// on its slot, with whatever payload, the slot holds a post with the same author and
/// timestamp afterwards; and a deletion either leaves the post as it is or ends it.
pub proof fn lemma_author_and_timestamp_frozen(
    post: PostView,
    caller: Seq<u8>,
    title: Seq<char>,
    content: Seq<char>,
    now: int,
)
    ensures
        after_update(SlotView::Active(post), caller, title, content).post() matches Some(kept)
            && kept.author == post.author && kept.timestamp == post.timestamp,
        after_create(SlotView::Active(post), caller, title, content, now) == SlotView::Active(
            post,
        ),
        after_delete(SlotView::Active(post), caller) == SlotView::Active(post) || after_delete(
            SlotView::Active(post),
            caller,
        ).post() is None,
{
}

/// A slot moves only forward through its life. Only a creation changes a vacant slot, and
/// makes it active; only an update or a deletion changes an active slot, the one leaving it
/// active, the other closing it; nothing changes a closed slot.
pub proof fn lemma_slot_moves_forward(
    slot: SlotView,
    caller: Seq<u8>,
    title: Seq<char>,
    content: Seq<char>,
    now: int,
)
    ensures
        after_create(slot, caller, title, content, now) != slot ==> slot is Vacant && after_create(
            slot,
            caller,
            title,
            content,
            now,
        ) is Active,
        after_update(slot, caller, title, content) != slot ==> slot is Active && after_update(
            slot,
            caller,
            title,
            content,
        ) is Active,
        after_delete(slot, caller) != slot ==> slot is Active && after_delete(slot, caller) is Closed,
{
}

/// No operation makes a live post outgrow its fields: from a slot whose post fits, every
/// creation, update and deletion, accepted or rejected, ends in a slot whose post fits.
pub proof fn lemma_budget_kept(
    slot: SlotView,
    caller: Seq<u8>,
    title: Seq<char>,
    content: Seq<char>,
    now: int,
)
    requires
        slot.well_formed(),
    ensures
        after_create(slot, caller, title, content, now).well_formed(),
        after_update(slot, caller, title, content).well_formed(),
        after_delete(slot, caller).well_formed(),
{
}

/// The space reserved at creation, the sum of the largest sizes of all fields, is 560
/// bytes, and a post whose texts fit never takes more than that when stored.
pub proof fn lemma_post_fits_reserved_space(post: PostView)
    requires
        post.author.len() == IDENTITY_LEN,
        post.within_budget(),
    ensures
        SPACE == 560,
        post.stored_len() <= SPACE,
{
}

} // verus!
