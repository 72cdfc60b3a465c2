//! Verified core of the moosic music server: caching, configuration,
//! authentication rules, lyrics parsing, playlist bookkeeping, sharing,
//! scanning state and the request planning used by the HTTP handlers.

pub mod utils;
pub mod error;
pub mod entities;
pub mod cache;
pub mod text;
pub mod handlers;
pub mod middleware;
pub mod state;
pub mod services;
pub mod config;
pub mod schema;
