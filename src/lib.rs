//! A small blog: posts, registered authors, password credentials and the
//! cookie-borne session identity, with the persistence and rendering
//! concerns left to the caller.

pub mod model;
pub mod document;
pub mod store;
pub mod posts;
pub mod credential;
pub mod session;
pub mod auth;
