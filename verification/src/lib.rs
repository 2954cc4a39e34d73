//! Blog posts that only their author may change.
//!
//! A post lives in a [`Slot`]: vacant until [`create_post`] puts a post there, active
//! while the post lives, closed for good once [`delete_post`] has removed it. The caller
//! who creates a post becomes its author, and the clock's time at that moment its
//! timestamp; neither ever changes. [`update_post`] replaces title and content, for the
//! author only. A rejected call changes nothing.
//!
//! Storage for a post is reserved once, [`SPACE`] bytes, so each text is held to the bytes
//! reserved for it.
//!
//! [`manager`] says, as functions on mathematical values, when each operation is rejected
//! and what it leaves behind; the executable operations are proved to do exactly that, and
//! [`laws`] holds what follows for every caller, payload and slot.

mod clock;
pub mod context;
pub mod error;
pub mod identity;
pub mod laws;
pub mod manager;
pub mod post;
pub mod slot;

pub use context::{CreatePost, DeletePost, UpdatePost};
pub use error::{AllocationError, BlogError, Error};
pub use identity::{Identity, IDENTITY_LEN};
pub use manager::{create_post, create_post_at, delete_post, update_post};
pub use post::{
    fits, Post, DISCRIMINATOR_LEN, LENGTH_PREFIX_LEN, MAX_TEXT_LEN, SPACE, TIMESTAMP_LEN,
};
pub use slot::Slot;
