use blog_upload::models::{BlogId, CommentStatus, PostId, PostStatus, SetupPosition, TagModel, TagId};

#[test]
fn status_codes_follow_the_declaration_order() {
    assert_eq!(PostStatus::Draft.code(), 0);
    assert_eq!(PostStatus::Published.code(), 1);
    assert_eq!(CommentStatus::Denied.code(), 2);
    assert_eq!(SetupPosition::Done.code(), 0);
    assert_eq!(SetupPosition::NotStarted.code(), 1);
}

#[test]
fn status_codes_round_trip() {
    assert_eq!(PostStatus::from_code(1), Some(PostStatus::Published));
    assert_eq!(CommentStatus::from_code(0), Some(CommentStatus::Pending));
    assert_eq!(CommentStatus::from_code(3), None);
    assert_eq!(SetupPosition::from_code(2), None);
}

#[test]
fn zero_identifier_means_no_row() {
    assert!(BlogId::none().is_none());
    assert!(!PostId(7).is_none());
    let tag = TagModel { id: TagId(3), name: "rust".to_string() };
    assert!(!tag.id.is_none());
}
