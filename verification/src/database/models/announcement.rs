//! Announcements posted to a conference.

use vstd::prelude::*;

verus! {

/// An announcement, posted by an admin to one conference.
#[derive(Debug)]
pub struct Announcement {
    pub id: i32,
    pub conference_id: i32,
    pub posted_by: i32,
    pub title: String,
    pub content: String,
}

} // verus!
