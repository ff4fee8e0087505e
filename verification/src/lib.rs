//! Verified core of a conference-hosting backend: password hashing, admin
//! session tokens, the request guards that decide who may see or manage a
//! conference, and the decisions behind each API route.

pub mod config;
pub mod http;
pub mod text;
pub mod auth;
pub mod time;
pub mod database;
pub mod routes;
