use vstd::prelude::*;

use crate::event::ChatEvent;
use crate::identity::Uuid;

verus! {

/// The name of the cookie that carries a session's identity.
pub const SESSION_COOKIE: &'static str = "id";

/// A message was submitted without an identity cookie.
#[derive(Clone, Copy, Debug, PartialEq, Eq, Structural)]
pub struct Unauthorized;

impl Unauthorized {
    /// The text given to the rejected caller.
    pub fn reason(&self) -> (r: String)
        ensures
            r@ == "not authorized to send messages"@,
    {
        String::from_str("not authorized to send messages")
    }
}

/// The event for a message submitted over plain HTTP: `cookie` is the value
/// of the identity cookie, if the request had one, and `body` the text.
/// Without a cookie the request is refused and no event arises.
pub fn message_event<H>(cookie: Option<&str>, body: String) -> (r: Result<ChatEvent<H>, Unauthorized>)
    ensures
        cookie is None <==> r is Err,
        cookie matches Some(c) ==> match r {
            Ok(ChatEvent::MessageSent { author_id, content }) => author_id@ == c@ && content@
                == body@,
            _ => false,
        },
{
    match cookie {
        Some(c) => Ok(ChatEvent::MessageSent { author_id: Uuid::from_value(c), content: body }),
        None => Err(Unauthorized),
    }
}

} // verus!
