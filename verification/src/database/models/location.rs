//! Locations on a conference's map.

use vstd::prelude::*;

verus! {

/// A place on the conference map. Coordinates are kept as the IEEE-754 bit
/// patterns of their `f64` degrees; the library only carries them.
#[derive(Debug)]
pub struct Location {
    pub id: i32,
    pub conference_id: i32,
    pub lat_bits: u64,
    pub lon_bits: u64,
    pub title: String,
    pub info: Option<String>,
}

} // verus!
