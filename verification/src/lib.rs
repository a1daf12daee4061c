//! Turns a structured mail request into a MIME message: the markdown body is
//! rendered to HTML, attachments fetched by the caller are added in their
//! declared order, and the whole is wrapped into one `multipart/mixed` message.
//!
//! The crate performs no I/O. Fetching and delivery belong to the caller, who
//! is told what to do next by the state machine in [`handler`].

pub mod address;
pub mod error;
pub mod guarantees;
pub mod handler;
pub mod markdown;
pub mod media_type;
pub mod message;
pub mod part;
pub mod request;
pub mod response;
pub mod text;
