//! Service-layer rules: what each operation decides from the rows it reads.

pub mod lookup;
pub mod annotation;
pub mod auth;
pub mod scanner;
pub mod metadata;
pub mod share;
pub mod playlist;
pub mod bookmark;
pub mod media;
pub mod cover;
pub mod library;
pub mod search;
pub mod user;
pub mod watcher;
