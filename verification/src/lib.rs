//! Verified core of a small ticket-tracking service: credentials and session
//! tokens, the guard in front of protected routes, and the request handlers
//! for tickets and comments, each written as a protocol over an abstract
//! relational store.

mod clock;
pub mod cookie;
pub mod error;
pub mod handlers;
pub mod model;
pub mod password;
pub mod relations;
pub mod reply;
pub mod route;
pub mod schema;
pub mod store;
pub mod text;
pub mod theorems;
pub mod utils;
