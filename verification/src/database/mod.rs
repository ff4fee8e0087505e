//! The records kept in the database. The queries themselves run outside the
//! library; these are the values they read and write.

pub mod models;
