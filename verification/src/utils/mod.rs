//! Session tokens and the guard that asks for them.

pub mod guard;
pub mod jwt;
