//! A chat relay core: a registry of live connections that processes join,
//! leave and message events one at a time and fans out one formatted line
//! per event to every attached member, plus the per-connection session state
//! machine that produces those events.

pub mod chat;
pub mod event;
pub mod identity;
pub mod ingress;
pub mod user;

pub use chat::{Broadcast, Chat};
pub use event::{format_line, ChatEvent, Connection};
pub use identity::Uuid;
pub use ingress::{message_event, Unauthorized, SESSION_COOKIE};
pub use user::{Frame, Phase, Reaction, User};
