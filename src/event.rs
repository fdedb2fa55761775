use vstd::prelude::*;

use crate::identity::Uuid;

verus! {

/// One member as the registry tracks it: its identity and the capability to
/// push text to it. `handle` is present once the session is established and
/// absent while it is not (or no longer) attached.
pub struct Connection<H> {
    pub id: Uuid,
    pub handle: Option<H>,
}

/// The events through which membership changes and broadcast text arise.
pub enum ChatEvent<H> {
    UserJoined(Connection<H>),
    UserLeft(Uuid),
    MessageSent { author_id: Uuid, content: String },
}

/// The line announced when `id` joins.
pub open spec fn joined_line(id: Seq<char>) -> Seq<char> {
    "!! << "@ + id + " joined the chat >> !!"@
}

/// The line announced when `id` leaves.
pub open spec fn left_line(id: Seq<char>) -> Seq<char> {
    id + " left the chat"@
}

/// The line that relays `content` written by `author`.
pub open spec fn message_line(author: Seq<char>, content: Seq<char>) -> Seq<char> {
    author + ": "@ + content
}

/// The one line that an event produces.
pub open spec fn line_of<H>(e: ChatEvent<H>) -> Seq<char> {
    match e {
        ChatEvent::UserJoined(c) => joined_line(c.id@),
        ChatEvent::UserLeft(id) => left_line(id@),
        ChatEvent::MessageSent { author_id, content } => message_line(author_id@, content@),
    }
}

/// The broadcast line of an event.
pub fn format_line<H>(e: &ChatEvent<H>) -> (r: String)
    ensures
        r@ == line_of(*e),
{
    match e {
        ChatEvent::UserJoined(c) => {
            let mut s = String::from_str("!! << ");
            s.append(c.id.as_str());
            s.append(" joined the chat >> !!");
            s
        },
        ChatEvent::UserLeft(id) => {
            let mut s = String::from_str(id.as_str());
            s.append(" left the chat");
            s
        },
        ChatEvent::MessageSent { author_id, content } => {
            let mut s = String::from_str(author_id.as_str());
            s.append(": ");
            s.append(content.as_str());
            s
        },
    }
}

} // verus!
