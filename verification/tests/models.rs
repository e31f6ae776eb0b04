//! The user, tag and post models.

use auth_core::post::{determine_post_type, Media, MediaType, Post, PostType};
use auth_core::tag::{Tag, TagResponse};
use auth_core::user::{Status, User, UserFilter};

fn sample_user() -> User {
    User {
        id: "64f0c2a5e13b4a0001a1b2c3".to_owned(),
        username: "u1".to_owned(),
        email: "u1@example.com".to_owned(),
        password: "hashed material".to_owned(),
        avatar: Some("/avatars/u1.png".to_owned()),
        bio: None,
        follower_count: 3,
        following_count: 7,
        is_verified: true,
        last_login: Some(1_700_000_000_000),
        status: Status::Active,
        created_at: 1_600_000_000_000,
        updated_at: 1_650_000_000_000,
    }
}

#[test]
fn to_user_projects_every_field_and_drops_password() {
    let user = sample_user();
    let filtered: UserFilter = User::to_user(user);
    assert_eq!(filtered.id, "64f0c2a5e13b4a0001a1b2c3");
    assert_eq!(filtered.username, "u1");
    assert_eq!(filtered.email, "u1@example.com");
    assert_eq!(filtered.avatar, Some("/avatars/u1.png".to_owned()));
    assert_eq!(filtered.bio, None);
    assert_eq!(filtered.follower_count, 3);
    assert_eq!(filtered.following_count, 7);
    assert!(filtered.is_verified);
    assert_eq!(filtered.last_login, Some(1_700_000_000_000));
    assert_eq!(filtered.status, Status::Active);
    assert_eq!(filtered.created_at, 1_600_000_000_000);
    assert_eq!(filtered.updated_at, 1_650_000_000_000);
}

#[test]
fn user_default_is_blank_and_active() {
    let user = User::default();
    assert_eq!(user.id, "");
    assert_eq!(user.username, "");
    assert_eq!(user.status, Status::Active);
    assert!(!user.is_verified);
    assert_eq!(user.follower_count, 0);
    assert_eq!(user.last_login, None);
}

#[test]
fn to_tag_keeps_id_and_name() {
    let tag = Tag {
        id: Some("64f0c2a5e13b4a0001a1b2c4".to_owned()),
        owner_id: "64f0c2a5e13b4a0001a1b2c3".to_owned(),
        name: "rust".to_owned(),
        created_at: 0,
        updated_at: 0,
    };
    let response: TagResponse = Tag::to_tag(tag);
    assert_eq!(response._id, "64f0c2a5e13b4a0001a1b2c4");
    assert_eq!(response.name, "rust");
}

#[test]
fn tag_default_is_unstored() {
    let tag = Tag::default();
    assert!(tag.id.is_none());
    assert_eq!(tag.name, "");
}

#[test]
fn post_type_counts_attachments() {
    let one = vec![Media { url: "/m/1.png".to_owned(), media_type: MediaType::Image }];
    let two = vec![
        Media { url: "/m/1.png".to_owned(), media_type: MediaType::Image },
        Media { url: "/m/2.mp4".to_owned(), media_type: MediaType::Video },
    ];
    assert_eq!(determine_post_type(&None), PostType::Single);
    assert_eq!(determine_post_type(&Some(Vec::new())), PostType::Single);
    assert_eq!(determine_post_type(&Some(one)), PostType::Single);
    assert_eq!(determine_post_type(&Some(two)), PostType::Multiple);
}

#[test]
fn to_post_joins_author_and_tags() {
    let post = Post {
        id: Some("64f0c2a5e13b4a0001a1b2c5".to_owned()),
        author_id: "64f0c2a5e13b4a0001a1b2c3".to_owned(),
        content: "hello".to_owned(),
        media: vec![Media { url: "/m/1.png".to_owned(), media_type: MediaType::Image }],
        tag_ids: vec!["64f0c2a5e13b4a0001a1b2c4".to_owned()],
        likes_count: 2,
        comments_count: 1,
        post_type: PostType::Single,
        created_at: 1_600_000_000_123,
        updated_at: -1,
    };
    let author = Some(User::to_user(sample_user()));
    let tags = Some(vec![TagResponse {
        _id: "64f0c2a5e13b4a0001a1b2c4".to_owned(),
        name: "rust".to_owned(),
    }]);

    let response = Post::to_post(Some(post), author, tags).expect("a stored post joins");
    assert_eq!(response.id, "64f0c2a5e13b4a0001a1b2c5");
    assert_eq!(response.content, "hello");
    assert_eq!(response.media.as_ref().map(Vec::len), Some(1));
    assert_eq!(response.author.as_ref().map(|a| a.username.as_str()), Some("u1"));
    assert_eq!(response.tags.as_ref().map(Vec::len), Some(1));
    assert_eq!(response.likes_count, 2);
    assert_eq!(response.comments_count, 1);
    assert_eq!(response.post_type, PostType::Single);
    assert_eq!(response.created_at, "1600000000123");
    assert_eq!(response.updated_at, "-1");
}

#[test]
fn to_post_of_nothing_is_nothing() {
    assert!(Post::to_post(None, None, None).is_none());
}

#[test]
fn post_default_is_blank_and_single() {
    let post = Post::default();
    assert!(post.id.is_none());
    assert_eq!(post.post_type, PostType::Single);
    assert!(post.media.is_empty());
    assert_eq!(post.likes_count, 0);
}
