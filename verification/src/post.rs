//! The post model and its request/response shapes.
//!
//! A post's response shape joins the stored record with the resolved
//! author and tag projections; fetching those belongs to the surrounding
//! application, and the join itself is verified here.

use vstd::prelude::*;

use crate::tag::TagResponse;
use crate::text::format_i64;
use crate::text::spec_format_i64;
use crate::user::UserFilter;

verus! {

/// Kind of a media attachment.
#[derive(Debug, Clone, Copy, PartialEq, Eq, Structural)]
pub enum MediaType {
    /// A still image.
    Image,
    /// A video clip.
    Video,
}

/// A media attachment: where it lives and what it is.
#[derive(Debug)]
pub struct Media {
    /// Location of the media file.
    pub url: String,
    /// Kind of the attachment.
    pub media_type: MediaType,
}

/// Shape of a post, by its number of attachments.
#[derive(Debug, Clone, Copy, PartialEq, Eq, Structural)]
pub enum PostType {
    /// At most one attachment.
    Single,
    /// More than one attachment.
    Multiple,
}

/// A stored post record.
#[derive(Debug)]
pub struct Post {
    /// Identifier, as a hexadecimal string; absent until stored.
    pub id: Option<String>,
    /// Identifier of the authoring user.
    pub author_id: String,
    /// Body text.
    pub content: String,
    /// Media attachments.
    pub media: Vec<Media>,
    /// Identifiers of the attached tags.
    pub tag_ids: Vec<String>,
    /// Number of likes.
    pub likes_count: i32,
    /// Number of comments.
    pub comments_count: i32,
    /// Shape of the post.
    pub post_type: PostType,
    /// Creation time, in milliseconds since the epoch.
    pub created_at: i64,
    /// Last modification time, in milliseconds since the epoch.
    pub updated_at: i64,
}

impl Default for Post {
    /// A blank, unstored, single-shaped post with epoch timestamps.
    fn default() -> (r: Post)
        ensures
            r.id is None,
            r.author_id@ == Seq::<char>::empty(),
            r.content@ == Seq::<char>::empty(),
            r.media@ == Seq::<Media>::empty(),
            r.tag_ids@ == Seq::<String>::empty(),
            r.likes_count == 0,
            r.comments_count == 0,
            r.post_type == PostType::Single,
            r.created_at == 0,
            r.updated_at == 0,
    {
        Post {
            id: None,
            author_id: String::new(),
            content: String::new(),
            media: Vec::new(),
            tag_ids: Vec::new(),
            likes_count: 0,
            comments_count: 0,
            post_type: PostType::Single,
            created_at: 0,
            updated_at: 0,
        }
    }
}

/// Payload of a post creation or update request.
#[derive(Debug)]
pub struct PostRequest {
    /// Body text.
    pub content: String,
    /// Media attachments.
    pub media: Vec<Media>,
    /// Identifiers of the attached tags.
    pub tags: Vec<String>,
}

/// The outward-facing shape of a post, with the author and tags already
/// resolved to their own response shapes.
#[derive(Debug)]
pub struct PostResponse {
    /// Identifier, as a hexadecimal string.
    pub id: String,
    /// Body text.
    pub content: String,
    /// Media attachments, when any were stored.
    pub media: Option<Vec<Media>>,
    /// The resolved author, when the lookup found one.
    pub author: Option<UserFilter>,
    /// The resolved tags, when the lookup produced them.
    pub tags: Option<Vec<TagResponse>>,
    /// Number of likes.
    pub likes_count: i32,
    /// Number of comments.
    pub comments_count: i32,
    /// Shape of the post.
    pub post_type: PostType,
    /// Creation time, rendered in decimal milliseconds since the epoch.
    pub created_at: String,
    /// Last modification time, rendered in decimal milliseconds since
    /// the epoch.
    pub updated_at: String,
}

/// The shape a post takes for a given set of attachments: multiple
/// exactly when more than one attachment is present.
pub open spec fn spec_determine_post_type(media: &Option<Vec<Media>>) -> PostType {
    match media {
        Some(media_list) => if media_list@.len() > 1 {
            PostType::Multiple
        } else {
            PostType::Single
        },
        None => PostType::Single,
    }
}

/// Decides the shape of a post from its attachments.
pub fn determine_post_type(media: &Option<Vec<Media>>) -> (r: PostType)
    ensures
        r == spec_determine_post_type(media),
{
    match media {
        Some(media_list) => if media_list.len() > 1 {
            PostType::Multiple
        } else {
            PostType::Single
        },
        None => PostType::Single,
    }
}

impl Post {
    /// Joins a stored post with its resolved author and tags into the
    /// response shape: every stored field carries over unchanged, the
    /// resolved values are taken as given, and the timestamps are
    /// rendered in decimal.  Nothing comes of nothing: an absent post
    /// has no response.  Only a stored post — one with an identifier —
    /// can be joined.
    pub fn to_post(data: Option<Post>, author: Option<UserFilter>, tags: Option<
        Vec<TagResponse>,
    >) -> (r: Option<PostResponse>)
        requires
            data matches Some(p) ==> p.id is Some,
        ensures
            match data {
                Some(p) => r matches Some(resp) && Some(resp.id) == p.id && resp.content
                    == p.content && resp.media == Some(p.media) && resp.author == author
                    && resp.tags == tags && resp.likes_count == p.likes_count
                    && resp.comments_count == p.comments_count && resp.post_type == p.post_type
                    && resp.created_at@ == spec_format_i64(p.created_at as int)
                    && resp.updated_at@ == spec_format_i64(p.updated_at as int),
                None => r is None,
            },
    {
        match data {
            Some(d) => {
                let id = d.id.unwrap();
                let created_at = format_i64(d.created_at);
                let updated_at = format_i64(d.updated_at);
                Some(
                    PostResponse {
                        id,
                        content: d.content,
                        media: Some(d.media),
                        author,
                        tags,
                        likes_count: d.likes_count,
                        comments_count: d.comments_count,
                        post_type: d.post_type,
                        created_at,
                        updated_at,
                    },
                )
            },
            None => None,
        }
    }
}

} // verus!
