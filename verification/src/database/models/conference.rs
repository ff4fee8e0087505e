//! Conferences.

use crate::time::Timestamp;
use vstd::prelude::*;

verus! {

/// A conference.
#[derive(Debug)]
pub struct Conference {
    pub id: i32,
    pub title: String,
    pub info: String,
    /// `None`: private, probably a preset, only visible to admins with access
    /// (superusers and the conference's own admins).
    /// `Some(_)`: public, visible to whoever gives this password.
    pub password: Option<String>,
    pub start_ts: Timestamp,
    pub end_ts: Timestamp,
    /// IEEE-754 bit patterns of the map's top-left corner, in `f64` degrees.
    pub top_left_lat_bits: u64,
    pub top_left_lon_bits: u64,
    pub width_in_tiles: i16,
    pub height_in_tiles: i16,
    /// Ids of the admins who manage the conference.
    pub admins: Vec<i32>,
}

} // verus!
