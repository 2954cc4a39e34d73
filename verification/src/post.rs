//! Posts, and the bytes reserved for them.

use vstd::prelude::*;
use vstd::utf8::encode_utf8;
use crate::identity::{Identity, IDENTITY_LEN};

verus! {

/// Bytes of the tag that opens every stored record.
pub const DISCRIMINATOR_LEN: usize = 8;

/// Bytes of the length prefix that precedes a stored text.
pub const LENGTH_PREFIX_LEN: usize = 4;

/// Most bytes that one stored text may take, length prefix included.
pub const MAX_TEXT_LEN: usize = 256;

/// Bytes of the stored timestamp.
pub const TIMESTAMP_LEN: usize = 8;

/// Bytes reserved for a record when it is created, never resized afterwards.
pub const SPACE: usize = DISCRIMINATOR_LEN + IDENTITY_LEN + MAX_TEXT_LEN + MAX_TEXT_LEN
    + TIMESTAMP_LEN;

/// A blog post.
#[derive(Clone, Debug, PartialEq, Eq)]
pub struct Post {
    pub title: String,
    pub content: String,
    /// Who created the post. Set at creation, never changed.
    pub author: Identity,
    /// When the post was created. Set at creation, never changed.
    pub timestamp: i64,
}

/// What a post is, as a mathematical value.
pub struct PostView {
    pub title: Seq<char>,
    pub content: Seq<char>,
    pub author: Seq<u8>,
    pub timestamp: int,
}

impl View for Post {
    type V = PostView;

    open spec fn view(&self) -> PostView {
        PostView {
            title: self.title@,
            content: self.content@,
            author: self.author@,
            timestamp: self.timestamp as int,
        }
    }
}

impl Default for Post {
    /// The blank post: no text, an author of 32 zero bytes, timestamp zero.
    fn default() -> (blank: Post)
        ensures
            blank@ == (PostView {
                title: Seq::empty(),
                content: Seq::empty(),
                author: Seq::new(32, |i: int| 0u8),
                timestamp: 0,
            }),
    {
        let author = Identity { bytes: [0u8; 32] };
        assert(author@ =~= Seq::new(32, |i: int| 0u8));
        Post { title: String::new(), content: String::new(), author, timestamp: 0 }
    }
}

/// Bytes that a text takes when stored: the length prefix, then its UTF-8 encoding.
pub open spec fn stored_text_len(text: Seq<char>) -> nat {
    LENGTH_PREFIX_LEN as nat + encode_utf8(text).len()
}

/// Whether a text fits the bytes reserved for one text field.
pub open spec fn text_fits(text: Seq<char>) -> bool {
    stored_text_len(text) <= MAX_TEXT_LEN
}

impl PostView {
    /// Bytes that the post takes when stored: tag, author, both texts, timestamp.
    pub open spec fn stored_len(self) -> nat {
        DISCRIMINATOR_LEN as nat + self.author.len() + stored_text_len(self.title)
            + stored_text_len(self.content) + TIMESTAMP_LEN as nat
    }

    /// Both texts fit their fields.
    pub open spec fn within_budget(self) -> bool {
        text_fits(self.title) && text_fits(self.content)
    }
}

/// Decides whether `text` fits the bytes reserved for one text field.
pub fn fits(text: &str) -> (ok: bool)
    ensures
        ok == text_fits(text@),
{
    text.as_bytes().len() <= MAX_TEXT_LEN - LENGTH_PREFIX_LEN
}

} // verus!
