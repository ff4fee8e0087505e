//! One module per table.

pub mod admin;
pub mod announcement;
pub mod category;
pub mod conference;
pub mod event;
pub mod location;
