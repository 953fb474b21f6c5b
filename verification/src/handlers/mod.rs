//! The request handlers. Each is a protocol: it is called with the stage it
//! has reached and the outcome of the statement it sent last, and answers
//! with the next stage and either the next statement or the reply.

pub mod auth_handlers;
pub mod comment_handlers;
pub mod ticket_handlers;
