use blog::{AllocationError, BlogError, Error, Identity, Post};

#[test]
fn messages_name_the_refused_operation() {
    assert_eq!(
        BlogError::UnauthorizedPostUpdate.message(),
        "You are not authorized to update this post"
    );
    assert_eq!(
        BlogError::UnauthorizedPostDeletion.message(),
        "You are not authorized to delete this post"
    );
}

#[test]
fn errors_are_told_apart() {
    assert_ne!(BlogError::UnauthorizedPostUpdate, BlogError::UnauthorizedPostDeletion);
    assert_ne!(AllocationError::BudgetExceeded, AllocationError::StorageUnavailable);
    assert_ne!(
        Error::Blog(BlogError::UnauthorizedPostUpdate),
        Error::Allocation(AllocationError::BudgetExceeded)
    );
    assert_ne!(Error::PostNotFound, Error::ClockUnavailable);
}

#[test]
fn the_blank_post_is_empty() {
    assert_eq!(
        Post::default(),
        Post {
            title: String::new(),
            content: String::new(),
            author: Identity { bytes: [0; 32] },
            timestamp: 0,
        }
    );
}
