//! The administrator's endpoints: libraries and users.

pub mod library;
pub mod user;
