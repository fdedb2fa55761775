use vstd::prelude::*;

use crate::event::{ChatEvent, Connection};
use crate::chat::{has_member, step};
use crate::event::{left_line, line_of, message_line};
use crate::identity::{is_v4_text, Uuid};

verus! {

/// Where a session stands in its lifecycle.
#[derive(Clone, Copy, Debug, PartialEq, Eq, Structural)]
pub enum Phase {
    /// Made, not yet announced to the registry.
    Created,
    /// Announced to the registry with its delivery handle.
    Attached,
    /// Has received at least one frame from its client.
    Active,
    /// A close was asked for, by the client or by a transport fault.
    Closing,
    /// Torn down; its departure has been announced.
    Terminated,
}

/// What a session receives from its client's transport.
pub enum Frame {
    Text(String),
    Binary,
    Ping,
    Pong,
    Close,
    /// Any other control or continuation frame.
    Other,
    /// A read error or protocol violation, treated as an implicit close.
    Fault,
}

/// What the transport is to do after a frame.
pub enum Reaction<H> {
    /// Submit this event to the registry.
    Submit(ChatEvent<H>),
    /// Acknowledge the close and stop receiving.
    Close,
    /// Nothing.
    Ignore,
}

/// Whether the session is attached and receiving frames.
pub open spec fn is_live(p: Phase) -> bool {
    p == Phase::Attached || p == Phase::Active
}

/// The phase after a frame arrives in phase `p`.
pub open spec fn phase_after_frame(p: Phase, f: Frame) -> Phase {
    if is_live(p) {
        match f {
            Frame::Close | Frame::Fault => Phase::Closing,
            _ => Phase::Active,
        }
    } else {
        p
    }
}

/// Whether `r` submits a message with this author and text.
pub open spec fn submits_message<H>(r: Reaction<H>, author: Seq<char>, text: Seq<char>) -> bool {
    match r {
        Reaction::Submit(ChatEvent::MessageSent { author_id, content }) => author_id@ == author
            && content@ == text,
        _ => false,
    }
}

/// Whether `e` announces that `id` left.
pub open spec fn announces_left<H>(e: Option<ChatEvent<H>>, id: Seq<char>) -> bool {
    match e {
        Some(ChatEvent::UserLeft(u)) => u@ == id,
        _ => false,
    }
}

/// Whether `e` announces that `id` joined, reachable through `handle`.
pub open spec fn announces_joined<H>(e: Option<ChatEvent<H>>, id: Seq<char>, handle: H) -> bool {
    match e {
        Some(ChatEvent::UserJoined(c)) => c.id@ == id && c.handle == Some(handle),
        _ => false,
    }
}

/// A text frame that a live session submits reaches the registry as that
/// session's message: its line is `author: text`, and membership stays as it
/// was.
pub proof fn lemma_text_relayed<H>(
    r: Reaction<H>,
    author: Seq<char>,
    text: Seq<char>,
    users: Seq<Connection<H>>,
)
    requires
        submits_message(r, author, text),
    ensures
        match r {
            Reaction::Submit(e) => line_of(e) == message_line(author, text) && step(users, e)
                == users,
            _ => false,
        },
{
}

/// The leave that a session announces at teardown, processed by a registry
/// in which the session's identity is unique, removes the session, announces
/// `id left the chat`, and a repeated leave changes nothing more.
pub proof fn lemma_leave_excludes<H>(e: Option<ChatEvent<H>>, id: Seq<char>, users: Seq<Connection<H>>)
    requires
        announces_left(e, id),
        forall|i: int, j: int|
            0 <= i < users.len() && 0 <= j < users.len() && users[i].id@ == id && users[j].id@ == id
                ==> i == j,
    ensures
        match e {
            Some(ev) => {
                &&& !has_member(step(users, ev), id)
                &&& line_of(ev) == left_line(id)
                &&& step(step(users, ev), ev) == step(users, ev)
            },
            None => false,
        },
{
    if let Some(ChatEvent::UserLeft(u)) = e {
        crate::chat::lemma_left_twice(users, u);
    }
}

/// One client's session: a stable identity and a lifecycle that turns
/// transport happenings into registry events.
pub struct User {
    id: Uuid,
    phase: Phase,
}

impl User {
    /// The session's identity.
    pub closed spec fn identity(&self) -> Seq<char> {
        self.id@
    }

    /// The session's phase.
    pub closed spec fn state(&self) -> Phase {
        self.phase
    }

    /// A new session with a fresh random identity.
    pub fn new() -> (r: User)
        ensures
            is_v4_text(r.identity()),
            r.state() == Phase::Created,
    {
        User { id: Uuid::generate(), phase: Phase::Created }
    }

    /// A new session with the given identity.
    pub fn with_id(id: Uuid) -> (r: User)
        ensures
            r.identity() == id@,
            r.state() == Phase::Created,
    {
        User { id, phase: Phase::Created }
    }

    /// The session's identity, never regenerated.
    pub fn id(&self) -> (r: &Uuid)
        ensures
            r@ == self.identity(),
    {
        &self.id
    }

    /// The session's phase.
    pub fn phase(&self) -> (r: Phase)
        ensures
            r == self.state(),
    {
        self.phase
    }

    /// The session is established with `handle` as its delivery capability.
    /// The first time, it becomes attached and yields the join event that
    /// carries the handle; afterwards nothing happens.
    pub fn started<H>(&mut self, handle: H) -> (r: Option<ChatEvent<H>>)
        ensures
            final(self).identity() == old(self).identity(),
            old(self).state() == Phase::Created ==> final(self).state() == Phase::Attached
                && announces_joined(r, old(self).identity(), handle),
            old(self).state() != Phase::Created ==> final(self).state() == old(self).state()
                && r is None,
    {
        if self.phase == Phase::Created {
            self.phase = Phase::Attached;
            Some(ChatEvent::UserJoined(Connection { id: self.id.duplicate(), handle: Some(handle) }))
        } else {
            None
        }
    }

    /// A frame from the client while live: text becomes a message from this
    /// session, a close or a fault starts closing, anything else is ignored.
    /// Outside the live phases every frame is ignored.
    pub fn on_frame<H>(&mut self, frame: Frame) -> (r: Reaction<H>)
        ensures
            final(self).identity() == old(self).identity(),
            final(self).state() == phase_after_frame(old(self).state(), frame),
            is_live(old(self).state()) ==> match frame {
                Frame::Text(t) => submits_message(r, old(self).identity(), t@),
                Frame::Close | Frame::Fault => r is Close,
                _ => r is Ignore,
            },
            !is_live(old(self).state()) ==> r is Ignore,
    {
        if self.phase == Phase::Attached || self.phase == Phase::Active {
            match frame {
                Frame::Text(t) => {
                    self.phase = Phase::Active;
                    Reaction::Submit(ChatEvent::MessageSent { author_id: self.id.duplicate(), content: t })
                },
                Frame::Close | Frame::Fault => {
                    self.phase = Phase::Closing;
                    Reaction::Close
                },
                _ => {
                    self.phase = Phase::Active;
                    Reaction::Ignore
                },
            }
        } else {
            Reaction::Ignore
        }
    }

    /// The session is torn down, whatever the cause. The first time, it
    /// yields the leave event; afterwards nothing, so that exactly one leave
    /// is announced per session.
    pub fn stopping<H>(&mut self) -> (r: Option<ChatEvent<H>>)
        ensures
            final(self).identity() == old(self).identity(),
            final(self).state() == Phase::Terminated,
            old(self).state() != Phase::Terminated ==> announces_left(r, old(self).identity()),
            old(self).state() == Phase::Terminated ==> r is None,
    {
        if self.phase == Phase::Terminated {
            None
        } else {
            self.phase = Phase::Terminated;
            Some(ChatEvent::UserLeft(self.id.duplicate()))
        }
    }
}

} // verus!
