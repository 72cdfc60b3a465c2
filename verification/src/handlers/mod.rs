//! Request and response types of the HTTP API, with the decisions each
//! handler makes before and after it talks to the database.

pub mod paging;
pub mod music;
pub mod album;
pub mod artist;
pub mod admin;
pub mod annotation;
pub mod bookmark;
pub mod library;
pub mod playlist;
pub mod search;
pub mod server;
pub mod share;
pub mod users;
pub mod user;
