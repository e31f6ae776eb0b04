//! The tag model and its request/response shapes.

use vstd::prelude::*;

verus! {

/// A stored tag record.
#[derive(Debug)]
pub struct Tag {
    /// Identifier, as a hexadecimal string; absent until stored.
    pub id: Option<String>,
    /// Identifier of the owning user.
    pub owner_id: String,
    /// Display name.
    pub name: String,
    /// Creation time, in milliseconds since the epoch.
    pub created_at: i64,
    /// Last modification time, in milliseconds since the epoch.
    pub updated_at: i64,
}

impl Default for Tag {
    /// A blank, unstored tag with epoch timestamps.
    fn default() -> (r: Tag)
        ensures
            r.id is None,
            r.owner_id@ == Seq::<char>::empty(),
            r.name@ == Seq::<char>::empty(),
            r.created_at == 0,
            r.updated_at == 0,
    {
        Tag {
            id: None,
            owner_id: String::new(),
            name: String::new(),
            created_at: 0,
            updated_at: 0,
        }
    }
}

impl Tag {
    /// Projects a stored tag onto its response shape: identifier and
    /// name carry over unchanged.  Only a stored tag — one with an
    /// identifier — has a response shape.
    pub fn to_tag(tag: Tag) -> (r: TagResponse)
        requires
            tag.id is Some,
        ensures
            Some(r._id) == tag.id,
            r.name == tag.name,
    {
        let id = tag.id.unwrap();
        TagResponse { _id: id, name: tag.name }
    }
}

/// Payload of a tag creation or update request.
#[derive(Debug)]
pub struct TagRequest {
    /// Display name.
    pub name: String,
}

/// The outward-facing shape of a tag.
#[derive(Debug)]
pub struct TagResponse {
    /// Identifier, as a hexadecimal string.
    pub _id: String,
    /// Display name.
    pub name: String,
}

} // verus!
