//! Who may do what: password hashes, admin session tokens and request guards.

pub mod admin_jwt;
pub mod admin_login;
pub mod conf_guard;
pub mod pwd;
