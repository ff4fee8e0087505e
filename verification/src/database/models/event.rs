//! Events of a conference.

use vstd::prelude::*;

verus! {

/// An event, held at one location of a conference.
#[derive(Debug)]
pub struct Event {
    pub id: i32,
    pub conference_id: i32,
    pub location_id: i32,
    pub title: String,
    pub info: Option<String>,
    pub categories: Vec<i32>,
}

} // verus!
