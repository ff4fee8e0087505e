//! Routes for a conference's announcements.

use crate::auth::conf_guard::ConferenceManageGuard;
use vstd::prelude::*;

verus! {

/// The form of an announcement.
#[derive(Debug)]
pub struct AnnouncementForm {
    pub title: String,
    pub content: String,
}

/// An announcement about to be stored.
#[derive(Debug)]
pub struct NewAnnouncement {
    pub conference_id: i32,
    pub posted_by: i32,
    pub title: String,
    pub content: String,
}

/// A change to a stored announcement, scoped to one conference.
#[derive(Debug)]
pub struct AnnouncementEdit {
    pub id: i32,
    pub conference_id: i32,
    pub title: String,
    pub content: String,
}

impl AnnouncementForm {
    /// A posted announcement belongs to the managed conference and names the
    /// managing admin as its author.
    pub fn post(self, guard: &ConferenceManageGuard) -> (a: NewAnnouncement)
        ensures
            a.conference_id == guard.conference.id,
            a.posted_by == guard.admin.id,
            a.title == self.title,
            a.content == self.content,
    {
        NewAnnouncement {
            conference_id: guard.conference.id,
            posted_by: guard.admin.id,
            title: self.title,
            content: self.content,
        }
    }

    /// An edit reaches announcement `id` only within the managed conference.
    pub fn edit(self, guard: &ConferenceManageGuard, id: i32) -> (e: AnnouncementEdit)
        ensures
            e.id == id,
            e.conference_id == guard.conference.id,
            e.title == self.title,
            e.content == self.content,
    {
        AnnouncementEdit { id, conference_id: guard.conference.id, title: self.title, content: self.content }
    }
}

/// A deletion reaches announcement `id` only within the managed conference:
/// the pair (announcement id, conference id) that the deletion matches.
pub fn deletion_target(guard: &ConferenceManageGuard, id: i32) -> (t: (i32, i32))
    ensures
        t == (id, guard.conference.id),
{
    (id, guard.conference.id)
}

} // verus!
