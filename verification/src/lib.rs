//! Group-chat identity and outgoing-message drafts for a messaging client.
//!
//! `chat` unifies the shapes in which the service describes a group into one
//! entity with a compact addressing key. `message` accumulates the text,
//! formatting, media, scheduling and delivery options of a message that has
//! not been sent yet.

pub mod chat;
pub mod message;
pub mod mime;
pub mod raw;
pub mod schedule;
