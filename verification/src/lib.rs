//! Session bridge: the rules of a desktop client that talks to one backend
//! service through a single guarded connection, queries an external catalog
//! and produces thumbnails.

pub mod catalog;
pub mod error;
pub mod language;
pub mod models;
pub mod session;
pub mod thumbnail;
