//! What each API route decides, apart from the database calls it makes.

pub mod admin;
pub mod announcements;
pub mod conferences;
