use vstd::prelude::*;

use crate::event::{format_line, left_line, line_of, ChatEvent, Connection};
use crate::identity::Uuid;

verus! {

/// Whether `i` is the first position in `users` of a member named `id`.
pub open spec fn is_first_match<H>(users: Seq<Connection<H>>, id: Seq<char>, i: int) -> bool {
    &&& 0 <= i < users.len()
    &&& users[i].id@ == id
    &&& forall|j: int| 0 <= j < i ==> users[j].id@ != id
}

/// Whether some member of `users` is named `id`.
pub open spec fn has_member<H>(users: Seq<Connection<H>>, id: Seq<char>) -> bool {
    exists|i: int| 0 <= i < users.len() && #[trigger] users[i].id@ == id
}

/// `users` without its first member named `id`; unchanged if there is none.
pub open spec fn without_member<H>(users: Seq<Connection<H>>, id: Seq<char>) -> Seq<Connection<H>> {
    if has_member(users, id) {
        users.remove(choose|i: int| is_first_match(users, id, i))
    } else {
        users
    }
}

/// The membership after one event has been processed.
pub open spec fn step<H>(users: Seq<Connection<H>>, e: ChatEvent<H>) -> Seq<Connection<H>> {
    match e {
        ChatEvent::UserJoined(c) => users.push(c),
        ChatEvent::UserLeft(id) => without_member(users, id@),
        ChatEvent::MessageSent { .. } => users,
    }
}

/// Whether `targets` lists, in increasing order and once each, exactly the
/// positions of the members of `users` that have a delivery handle.
pub open spec fn delivers_to<H>(users: Seq<Connection<H>>, targets: Seq<usize>) -> bool {
    &&& forall|k: int| 0 <= k < targets.len() ==> #[trigger] targets[k] < users.len()
    &&& forall|k: int, l: int| 0 <= k < l < targets.len() ==> targets[k] < targets[l]
    &&& forall|k: int| 0 <= k < targets.len() ==> (#[trigger] users[targets[k] as int]).handle is Some
    &&& forall|i: int| 0 <= i < users.len() && (#[trigger] users[i]).handle is Some
        ==> targets.contains(i as usize)
}

/// The membership after processing `evs` in order, starting from `users`.
pub open spec fn run<H>(users: Seq<Connection<H>>, evs: Seq<ChatEvent<H>>) -> Seq<Connection<H>>
    decreases evs.len(),
{
    if evs.len() == 0 {
        users
    } else {
        step(run(users, evs.drop_last()), evs.last())
    }
}

/// The number of join events in `evs`.
pub open spec fn joins<H>(evs: Seq<ChatEvent<H>>) -> int
    decreases evs.len(),
{
    if evs.len() == 0 {
        0
    } else {
        joins(evs.drop_last()) + if evs.last() is UserJoined {
            1int
        } else {
            0int
        }
    }
}

/// The number of leave events in `evs` that, processed in order from
/// `users`, found a member to remove.
pub open spec fn matched_lefts<H>(users: Seq<Connection<H>>, evs: Seq<ChatEvent<H>>) -> int
    decreases evs.len(),
{
    if evs.len() == 0 {
        0
    } else {
        matched_lefts(users, evs.drop_last()) + match evs.last() {
            ChatEvent::UserLeft(id) => if has_member(run(users, evs.drop_last()), id@) {
                1int
            } else {
                0int
            },
            _ => 0int,
        }
    }
}

proof fn lemma_first_match_from<H>(users: Seq<Connection<H>>, id: Seq<char>, k: int)
    requires
        0 <= k < users.len(),
        users[k].id@ == id,
    ensures
        exists|i: int| is_first_match(users, id, i),
    decreases k,
{
    if exists|j: int| 0 <= j < k && users[j].id@ == id {
        let j = choose|j: int| 0 <= j < k && users[j].id@ == id;
        lemma_first_match_from(users, id, j);
    } else {
        assert(is_first_match(users, id, k));
    }
}

/// A member named `id` has a first position.
pub proof fn lemma_first_match<H>(users: Seq<Connection<H>>, id: Seq<char>)
    requires
        has_member(users, id),
    ensures
        is_first_match(users, id, choose|i: int| is_first_match(users, id, i)),
{
    let k = choose|k: int| 0 <= k < users.len() && #[trigger] users[k].id@ == id;
    lemma_first_match_from(users, id, k);
}

/// Membership size: after any sequence of events, the registry holds as many
/// members as it started with, plus the joins, minus the leaves that found
/// their member. Leaves of absent identities count for nothing.
pub proof fn lemma_membership_count<H>(users: Seq<Connection<H>>, evs: Seq<ChatEvent<H>>)
    ensures
        run(users, evs).len() == users.len() + joins(evs) - matched_lefts(users, evs),
    decreases evs.len(),
{
    if evs.len() > 0 {
        lemma_membership_count(users, evs.drop_last());
        let before = run(users, evs.drop_last());
        if let ChatEvent::UserLeft(id) = evs.last() {
            if has_member(before, id@) {
                lemma_first_match(before, id@);
            }
        }
    }
}

/// Idempotent removal: where at most one member is named `id`, a second
/// leave of `id` changes nothing after the first, and both announce the
/// same leave line.
pub proof fn lemma_left_twice<H>(users: Seq<Connection<H>>, id: Uuid)
    requires
        forall|i: int, j: int|
            0 <= i < users.len() && 0 <= j < users.len() && users[i].id@ == id@ && users[j].id@
                == id@ ==> i == j,
    ensures
        step(step(users, ChatEvent::UserLeft(id)), ChatEvent::UserLeft(id)) == step(
            users,
            ChatEvent::UserLeft(id),
        ),
        !has_member(step(users, ChatEvent::UserLeft(id)), id@),
        line_of(ChatEvent::<H>::UserLeft(id)) == left_line(id@),
{
    let once = step(users, ChatEvent::UserLeft(id));
    if has_member(users, id@) {
        lemma_first_match(users, id@);
        let c = choose|i: int| is_first_match(users, id@, i);
        assert forall|m: int| 0 <= m < once.len() implies #[trigger] once[m].id@ != id@ by {
            if m < c {
                assert(once[m] == users[m]);
            } else {
                assert(once[m] == users[m + 1]);
            }
        }
    }
}

/// Delivery isolation: after any event, a member with a handle is among the
/// recipients even when another member has none and so receives nothing.
pub proof fn lemma_delivery_isolation<H>(
    users: Seq<Connection<H>>,
    e: ChatEvent<H>,
    targets: Seq<usize>,
    a: usize,
    b: usize,
)
    requires
        delivers_to(step(users, e), targets),
        a < step(users, e).len(),
        b < step(users, e).len(),
        step(users, e)[a as int].handle is None,
        step(users, e)[b as int].handle is Some,
    ensures
        targets.contains(b),
        !targets.contains(a),
{
    let after = step(users, e);
    if targets.contains(a) {
        let k = choose|k: int| 0 <= k < targets.len() && targets[k] == a;
        assert(after[targets[k] as int].handle is Some);
    }
}

/// What processing one event hands out: the line, and the members it goes to.
pub struct Broadcast {
    pub line: String,
    pub targets: Vec<usize>,
}

/// The registry: the sole holder of membership and the sole source of
/// broadcast lines. Events are processed one at a time through `&mut self`.
pub struct Chat<H> {
    users: Vec<Connection<H>>,
}

impl<H> Chat<H> {
    /// The members, in order of joining.
    pub closed spec fn members(&self) -> Seq<Connection<H>> {
        self.users@
    }

    /// An empty registry.
    pub fn new() -> (r: Chat<H>)
        ensures
            r.members() == Seq::<Connection<H>>::empty(),
    {
        Chat { users: Vec::new() }
    }

    /// The members, in order of joining.
    pub fn users(&self) -> (r: &Vec<Connection<H>>)
        ensures
            r@ == self.members(),
    {
        &self.users
    }

    /// The number of members.
    pub fn len(&self) -> (r: usize)
        ensures
            r == self.members().len(),
    {
        self.users.len()
    }

    /// The position of the first member named `id`, if any.
    fn position_of(&self, id: &crate::identity::Uuid) -> (r: Option<usize>)
        ensures
            r matches Some(i) ==> is_first_match(self.members(), id@, i as int),
            r is None ==> !has_member(self.members(), id@),
    {
        let mut i: usize = 0;
        while i < self.users.len()
            invariant
                i <= self.users@.len(),
                forall|j: int| 0 <= j < i ==> self.users@[j].id@ != id@,
            decreases self.users@.len() - i,
        {
            if self.users[i].id.same_as(id) {
                return Some(i);
            }
            i = i + 1;
        }
        None
    }

    /// The positions of the members that have a delivery handle.
    fn attached_positions(&self) -> (r: Vec<usize>)
        ensures
            delivers_to(self.members(), r@),
    {
        let mut targets: Vec<usize> = Vec::new();
        let mut i: usize = 0;
        while i < self.users.len()
            invariant
                i <= self.users@.len(),
                forall|k: int| 0 <= k < targets@.len() ==> #[trigger] targets@[k] < i,
                forall|k: int, l: int| 0 <= k < l < targets@.len() ==> targets@[k] < targets@[l],
                forall|k: int| 0 <= k < targets@.len()
                    ==> (#[trigger] self.users@[targets@[k] as int]).handle is Some,
                forall|j: int| 0 <= j < i && (#[trigger] self.users@[j]).handle is Some
                    ==> targets@.contains(j as usize),
            decreases self.users@.len() - i,
        {
            let ghost before = targets@;
            if self.users[i].handle.is_some() {
                targets.push(i);
                assert(targets@[targets@.len() - 1] == i);
            }
            assert forall|j: int| 0 <= j <= i && (#[trigger] self.users@[j]).handle is Some
                implies targets@.contains(j as usize) by {
                if j < i {
                    let k = choose|k: int| 0 <= k < before.len() && before[k] == j as usize;
                    assert(targets@[k] == j as usize);
                } else {
                    assert(targets@[targets@.len() - 1] == j as usize);
                }
            }
            i = i + 1;
        }
        targets
    }

    /// Processes one event: changes membership as the event says, formats its
    /// line, and names every member attached afterwards as a recipient.
    /// A `UserLeft` for an identity that is not a member changes nothing.
    pub fn handle(&mut self, e: ChatEvent<H>) -> (r: Broadcast)
        ensures
            final(self).members() == step(old(self).members(), e),
            r.line@ == line_of(e),
            delivers_to(final(self).members(), r.targets@),
    {
        let line = format_line(&e);
        match e {
            ChatEvent::UserJoined(c) => {
                self.users.push(c);
            },
            ChatEvent::UserLeft(id) => {
                match self.position_of(&id) {
                    Some(i) => {
                        let ghost users = self.users@;
                        proof {
                            let c = choose|k: int| is_first_match(users, id@, k);
                            assert(is_first_match(users, id@, c));
                            assert(c == i);
                        }
                        self.users.remove(i);
                    },
                    None => {},
                }
            },
            ChatEvent::MessageSent { .. } => {},
        }
        let targets = self.attached_positions();
        Broadcast { line, targets }
    }

    /// Processes `events` one after another, in order: one broadcast per
    /// event, whole, each naming the members attached once its event has
    /// been processed.
    pub fn handle_all(&mut self, events: Vec<ChatEvent<H>>) -> (r: Vec<Broadcast>)
        ensures
            final(self).members() == run(old(self).members(), events@),
            r@.len() == events@.len(),
            forall|i: int|
                0 <= i < events@.len() ==> (#[trigger] r@[i]).line@ == line_of(events@[i])
                    && delivers_to(run(old(self).members(), events@.take(i + 1)), r@[i].targets@),
    {
        let ghost start = self.users@;
        let ghost all = events@;
        let total: usize = events.len();
        let mut rest = events;
        let mut out: Vec<Broadcast> = Vec::new();
        let mut done: usize = 0;
        while rest.len() > 0
            invariant
                done + rest@.len() == all.len(),
                all.len() == total,
                rest@ == all.skip(done as int),
                self.users@ == run(start, all.take(done as int)),
                out@.len() == done,
                forall|i: int|
                    0 <= i < done ==> (#[trigger] out@[i]).line@ == line_of(all[i])
                        && delivers_to(run(start, all.take(i + 1)), out@[i].targets@),
            decreases rest@.len(),
        {
            let e = rest.remove(0);
            assert(e == all[done as int]);
            assert(all.take(done + 1).drop_last() =~= all.take(done as int));
            assert(all.take(done + 1).last() == all[done as int]);
            let b = self.handle(e);
            out.push(b);
            done = done + 1;
            assert(rest@ =~= all.skip(done as int));
        }
        assert(all.take(done as int) =~= all);
        out
    }
}

} // verus!
