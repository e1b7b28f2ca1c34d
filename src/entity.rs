//! Snapshots of stored records, as this library reads them.

use vstd::prelude::*;

verus! {

/// A point in time: seconds and nanoseconds since the Unix epoch, with the
/// UTC offset (in seconds) it was recorded in.
#[derive(Clone, Copy, Debug, PartialEq, Eq, Structural)]
pub struct Timestamp {
    pub unix_seconds: i64,
    pub nanos: u32,
    pub offset_seconds: i32,
}

/// A stored user.
#[derive(Clone, Debug)]
pub struct UserData {
    pub id: String,
    pub email: String,
    pub username: String,
    pub bio: String,
    pub image: String,
}

/// A stored article, with the public fields of its author.
#[derive(Clone, Debug)]
pub struct ArticleSummary {
    pub id: String,
    pub author_id: String,
    pub slug: String,
    pub title: String,
    pub description: String,
    pub body: String,
    pub tag_list: Vec<String>,
    pub created_at: Timestamp,
    pub updated_at: Timestamp,
}

/// A stored comment.
#[derive(Clone, Debug)]
pub struct CommentSummary {
    pub id: String,
    pub article_id: String,
    pub author_id: String,
    pub body: String,
    pub created_at: Timestamp,
    pub updated_at: Timestamp,
}

} // verus!
