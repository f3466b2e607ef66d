//! Session core of a desktop messaging client.
//!
//! The crate holds the decisions of the session actor, the single owner of a
//! live messaging connection: how inbound lifecycle events change the shared
//! status flags, which requests a caller may enqueue, what the actor asks of
//! the connection backend for each request, and which reply it hands back.
//! Waiting, channels and the connection itself belong to the embedding
//! program, which feeds events in and carries actions out.

pub mod actor;
pub mod command;
pub mod events;
pub mod media;
pub mod message;
pub mod paths;
pub mod recipient;
pub mod status;
pub mod text;
pub mod trace;

pub use actor::{init_whatsapp, SessionActor};
pub use command::{send_media_message, send_message};
pub use status::{is_bot_ready, WhatsAppState};
