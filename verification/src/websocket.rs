//! Live-notification fan-out hub.
//!
//! The hub keeps the registry of connected live-update clients.  Each
//! connection has a locally-unique id, an optional set of named rooms, and an
//! outbox of JSON frames waiting to be written to the client's socket.  The
//! surrounding program drains the outboxes and performs the actual writes;
//! a write failure to one client is handled by unregistering that connection
//! and never disturbs the others.

use vstd::prelude::*;
use vstd::string::*;
use vstd::pervasive::VecAdditionalExecFns;
use crate::text::{dec_int, json_escaped, push_i64_dec, push_json_escaped};

verus! {

/// One notification event, as broadcast to every live connection.
pub struct MessageToClient {
    pub event: String,
    pub subject_id: i32,
    pub payload: String,
}

/// The JSON frame for one notification event.
pub open spec fn event_json(event: Seq<char>, subject_id: int, payload: Seq<char>) -> Seq<char> {
    "{\"event\":\""@ + json_escaped(event) + "\",\"subject_id\":"@ + dec_int(subject_id)
        + ",\"payload\":\""@ + json_escaped(payload) + "\"}"@
}

impl MessageToClient {
    pub fn new(event_name: &str, subject_id: i32, payload: String) -> (m: Self)
        ensures
            m.event@ == event_name@,
            m.subject_id == subject_id,
            m.payload == payload,
    {
        MessageToClient { event: String::from_str(event_name), subject_id, payload }
    }

    /// Serializes the event once, as the object the live clients expect.
    pub fn to_json(&self) -> (r: String)
        ensures
            r@ == event_json(self.event@, self.subject_id as int, self.payload@),
    {
        let mut r = String::from_str("{\"event\":\"");
        push_json_escaped(&mut r, self.event.as_str());
        r.append("\",\"subject_id\":");
        push_i64_dec(&mut r, self.subject_id as i64);
        r.append(",\"payload\":\"");
        push_json_escaped(&mut r, self.payload.as_str());
        r.append("\"}");
        proof {
            assert(r@ =~= event_json(self.event@, self.subject_id as int, self.payload@));
        }
        r
    }
}

/// One registered live connection.
pub struct Connection {
    pub id: u64,
    pub rooms: Vec<String>,
    pub outbox: Vec<String>,
}

/// The mathematical value of a connection.
#[verifier::ext_equal]
pub struct ConnectionView {
    pub id: u64,
    pub rooms: Seq<Seq<char>>,
    pub outbox: Seq<Seq<char>>,
}

impl View for Connection {
    type V = ConnectionView;

    open spec fn view(&self) -> ConnectionView {
        ConnectionView {
            id: self.id,
            rooms: self.rooms.deep_view(),
            outbox: self.outbox.deep_view(),
        }
    }
}

/// Every registered connection, in registration order.
pub open spec fn conns_of(conns: Seq<Connection>) -> Seq<ConnectionView> {
    conns.map_values(|c: Connection| c@)
}

/// Whether some connection carries this id.
pub open spec fn has_conn(conns: Seq<ConnectionView>, id: u64) -> bool {
    exists|i: int| 0 <= i < conns.len() && conns[i].id == id
}

/// The position of the connection that carries this id.
pub open spec fn conn_index(conns: Seq<ConnectionView>, id: u64) -> int {
    choose|i: int| 0 <= i < conns.len() && conns[i].id == id
}

/// No two connections share an id.
pub open spec fn conn_ids_unique(conns: Seq<ConnectionView>) -> bool {
    forall|i: int, j: int| 0 <= i < j < conns.len() ==> conns[i].id != conns[j].id
}

/// The registry after a broadcast: every outbox gains the frame.
pub open spec fn spec_broadcast(conns: Seq<ConnectionView>, frame: Seq<char>) -> Seq<
    ConnectionView,
> {
    conns.map_values(
        |c: ConnectionView|
            (ConnectionView { id: c.id, rooms: c.rooms, outbox: c.outbox.push(frame) }),
    )
}

/// The registry after a unicast: only the named connection's outbox gains the frame.
pub open spec fn spec_send_to(conns: Seq<ConnectionView>, id: u64, frame: Seq<char>) -> Seq<
    ConnectionView,
> {
    conns.map_values(
        |c: ConnectionView|
            (if c.id == id {
                ConnectionView { id: c.id, rooms: c.rooms, outbox: c.outbox.push(frame) }
            } else {
                c
            }),
    )
}

/// The registry after unregistering an id: connections with that id are gone,
/// the others keep their order and state.
pub open spec fn spec_unregister(conns: Seq<ConnectionView>, id: u64) -> Seq<ConnectionView> {
    conns.filter(|c: ConnectionView| c.id != id)
}

/// The registry after a connection joins a room: the room is added to that
/// connection's list unless it is already there.
pub open spec fn spec_join_room(conns: Seq<ConnectionView>, id: u64, room: Seq<char>) -> Seq<
    ConnectionView,
> {
    conns.map_values(
        |c: ConnectionView|
            (if c.id == id && !c.rooms.contains(room) {
                ConnectionView { id: c.id, rooms: c.rooms.push(room), outbox: c.outbox }
            } else {
                c
            }),
    )
}

/// A room list without one room name.
pub open spec fn without_room(rooms: Seq<Seq<char>>, room: Seq<char>) -> Seq<Seq<char>> {
    rooms.filter(|r: Seq<char>| r != room)
}

/// The registry after a connection leaves a room.
pub open spec fn spec_leave_room(conns: Seq<ConnectionView>, id: u64, room: Seq<char>) -> Seq<
    ConnectionView,
> {
    conns.map_values(
        |c: ConnectionView|
            (if c.id == id {
                ConnectionView { id: c.id, rooms: without_room(c.rooms, room), outbox: c.outbox }
            } else {
                c
            }),
    )
}

/// Filtering one more room name onto the end of a list.
proof fn lemma_without_room_push(t: Seq<Seq<char>>, room: Seq<char>, x: Seq<char>)
    ensures
        without_room(t.push(x), room) == if x != room {
            without_room(t, room).push(x)
        } else {
            without_room(t, room)
        },
{
    reveal(Seq::filter);
    assert(t.push(x).drop_last() =~= t);
}

/// The broadcast hub: the registry of live connections.
pub struct Server {
    pub next_id: u64,
    pub connections: Vec<Connection>,
}

impl Server {
    /// The registry as a mathematical sequence.
    pub open spec fn conns(&self) -> Seq<ConnectionView> {
        conns_of(self.connections@)
    }

    /// Well-formed: ids are unique and below the allocation counter.
    pub open spec fn wf(&self) -> bool {
        &&& conn_ids_unique(self.conns())
        &&& forall|i: int|
            0 <= i < self.conns().len() ==> #[trigger] self.conns()[i].id < self.next_id
    }

    pub fn new() -> (s: Server)
        ensures
            s.wf(),
            s.conns() =~= Seq::<ConnectionView>::empty(),
            s.next_id == 1,
    {
        Server { next_id: 1, connections: Vec::new() }
    }

    /// Adds a connection to the registry and returns its fresh id.
    pub fn register(&mut self) -> (id: u64)
        requires
            old(self).wf(),
            old(self).next_id < u64::MAX,
        ensures
            final(self).wf(),
            id == old(self).next_id,
            final(self).next_id == old(self).next_id + 1,
            final(self).conns() == old(self).conns().push(
                ConnectionView { id, rooms: Seq::empty(), outbox: Seq::empty() },
            ),
    {
        let id = self.next_id;
        self.next_id = self.next_id + 1;
        let conn = Connection { id, rooms: Vec::new(), outbox: Vec::new() };
        self.connections.push(conn);
        proof {
            assert(self.conns() =~~= old(self).conns().push(
                ConnectionView { id, rooms: Seq::empty(), outbox: Seq::empty() },
            ));
        }
        id
    }

    /// The index of the connection with this id, if it is registered.
    fn find_index(&self, id: u64) -> (r: Option<usize>)
        ensures
            match r {
                Some(i) => i < self.conns().len() && self.conns()[i as int].id == id && (forall|
                    j: int,
                |
                    0 <= j < i ==> #[trigger] self.conns()[j].id != id),
                None => !has_conn(self.conns(), id),
            },
    {
        let n = self.connections.len();
        let mut i: usize = 0;
        while i < n
            invariant
                i <= n,
                n == self.conns().len(),
                forall|j: int| 0 <= j < i ==> #[trigger] self.conns()[j].id != id,
            decreases n - i,
        {
            if self.connections[i].id == id {
                return Some(i);
            }
            i = i + 1;
        }
        None
    }

    /// Removes the connection with this id.  Removing an id that is not
    /// registered (any more) is a no-op, so unregistering twice is harmless.
    pub fn unregister(&mut self, id: u64)
        requires
            old(self).wf(),
        ensures
            final(self).wf(),
            final(self).next_id == old(self).next_id,
            final(self).conns() == spec_unregister(old(self).conns(), id),
            !has_conn(final(self).conns(), id),
    {
        let idx = self.find_index(id);
        match idx {
            Some(i) => {
                self.connections.remove(i);
                proof {
                    let oc = old(self).conns();
                    lemma_remove_index_is_unregister(oc, id, i as int);
                    assert(self.conns() =~~= oc.remove(i as int));
                    lemma_unregister_keeps_none(oc, id);
                }
            },
            None => {
                proof {
                    lemma_filter_identity(self.conns(), |c: ConnectionView| c.id != id);
                }
            },
        }
    }

    /// Serializes the event once and enqueues the frame to every registered
    /// connection.  With no connections registered this does nothing.
    pub fn broadcast(&mut self, msg: &MessageToClient)
        requires
            old(self).wf(),
        ensures
            final(self).wf(),
            final(self).next_id == old(self).next_id,
            final(self).conns() == spec_broadcast(
                old(self).conns(),
                event_json(msg.event@, msg.subject_id as int, msg.payload@),
            ),
    {
        let frame = msg.to_json();
        let ghost fr = frame@;
        let ghost orig = self.conns();
        let ghost orig_next = self.next_id;
        let n = self.connections.len();
        let mut i: usize = 0;
        while i < n
            invariant
                i <= n,
                n == self.conns().len(),
                orig.len() == n,
                self.next_id == orig_next,
                frame@ == fr,
                forall|j: int|
                    0 <= j < i ==> #[trigger] self.conns()[j] == (ConnectionView {
                        id: orig[j].id,
                        rooms: orig[j].rooms,
                        outbox: orig[j].outbox.push(fr),
                    }),
                forall|j: int| i <= j < n ==> #[trigger] self.conns()[j] == orig[j],
            decreases n - i,
        {
            let ghost before = self.conns()[i as int];
            let ghost vstart = self.connections@;
            let mut entry = Connection { id: 0, rooms: Vec::new(), outbox: Vec::new() };
            self.connections.set_and_swap(i, &mut entry);
            entry.outbox.push(frame.clone());
            self.connections.set(i, entry);
            proof {
                assert(self.conns()[i as int] =~~= (ConnectionView {
                    id: before.id,
                    rooms: before.rooms,
                    outbox: before.outbox.push(fr),
                }));
                assert forall|j: int| 0 <= j < n && j != i as int implies #[trigger] self.conns()[j]
                    == conns_of(vstart)[j] by {
                    assert(self.connections@[j] == vstart[j]);
                    assert(self.conns()[j] == self.connections@[j]@);
                    assert(conns_of(vstart)[j] == vstart[j]@);
                }
            }
            i = i + 1;
        }
        proof {
            assert(self.conns() =~~= spec_broadcast(old(self).conns(), fr));
        }
    }

    /// Enqueues one frame to exactly one connection; an unknown id is ignored.
    pub fn send_to(&mut self, id: u64, text: String)
        requires
            old(self).wf(),
        ensures
            final(self).wf(),
            final(self).next_id == old(self).next_id,
            final(self).conns() == spec_send_to(old(self).conns(), id, text@),
    {
        let ghost oc = self.conns();
        let idx = self.find_index(id);
        match idx {
            Some(i) => {
                let ghost tv = text@;
                let mut entry = Connection { id: 0, rooms: Vec::new(), outbox: Vec::new() };
                self.connections.set_and_swap(i, &mut entry);
                entry.outbox.push(text);
                self.connections.set(i, entry);
                proof {
                    assert forall|j: int| 0 <= j < oc.len() implies self.conns()[j] =~~=
                        spec_send_to(oc, id, tv)[j] by {
                        if j != i as int {
                            assert(oc[j].id != oc[i as int].id);
                        }
                    }
                    assert(self.conns() =~~= spec_send_to(oc, id, tv));
                }
            },
            None => {
                proof {
                    assert forall|j: int| 0 <= j < oc.len() implies self.conns()[j] =~~=
                        spec_send_to(oc, id, text@)[j] by {
                        assert(oc[j].id != id);
                    }
                    assert(self.conns() =~~= spec_send_to(oc, id, text@));
                }
            },
        }
    }

    /// Adds the connection with this id to a named room, once.
    pub fn join_room(&mut self, id: u64, room: String)
        requires
            old(self).wf(),
        ensures
            final(self).wf(),
            final(self).next_id == old(self).next_id,
            final(self).conns() == spec_join_room(old(self).conns(), id, room@),
    {
        let ghost oc = self.conns();
        let idx = self.find_index(id);
        match idx {
            Some(i) => {
                let ghost rv = room@;
                let mut entry = Connection { id: 0, rooms: Vec::new(), outbox: Vec::new() };
                self.connections.set_and_swap(i, &mut entry);
                let present = has_room(&entry.rooms, &room);
                if !present {
                    entry.rooms.push(room);
                }
                self.connections.set(i, entry);
                proof {
                    assert forall|j: int| 0 <= j < oc.len() implies self.conns()[j] =~~=
                        spec_join_room(oc, id, rv)[j] by {
                        if j != i as int {
                            assert(oc[j].id != oc[i as int].id);
                        }
                    }
                    assert(self.conns() =~~= spec_join_room(oc, id, rv));
                }
            },
            None => {
                proof {
                    assert forall|j: int| 0 <= j < oc.len() implies self.conns()[j] =~~=
                        spec_join_room(oc, id, room@)[j] by {
                        assert(oc[j].id != id);
                    }
                    assert(self.conns() =~~= spec_join_room(oc, id, room@));
                }
            },
        }
    }

    /// Removes the connection with this id from a named room.
    pub fn leave_room(&mut self, id: u64, room: &String)
        requires
            old(self).wf(),
        ensures
            final(self).wf(),
            final(self).next_id == old(self).next_id,
            final(self).conns() == spec_leave_room(old(self).conns(), id, room@),
    {
        let ghost oc = self.conns();
        let idx = self.find_index(id);
        match idx {
            Some(i) => {
                let mut entry = Connection { id: 0, rooms: Vec::new(), outbox: Vec::new() };
                self.connections.set_and_swap(i, &mut entry);
                remove_room(&mut entry.rooms, room);
                self.connections.set(i, entry);
                proof {
                    assert forall|j: int| 0 <= j < oc.len() implies self.conns()[j] =~~=
                        spec_leave_room(oc, id, room@)[j] by {
                        if j != i as int {
                            assert(oc[j].id != oc[i as int].id);
                        }
                    }
                    assert(self.conns() =~~= spec_leave_room(oc, id, room@));
                }
            },
            None => {
                proof {
                    assert forall|j: int| 0 <= j < oc.len() implies self.conns()[j] =~~=
                        spec_leave_room(oc, id, room@)[j] by {
                        assert(oc[j].id != id);
                    }
                    assert(self.conns() =~~= spec_leave_room(oc, id, room@));
                }
            },
        }
    }

    /// Hands the frames queued for one connection to the caller, emptying the
    /// outbox; the caller writes them to the socket.
    pub fn drain_outbox(&mut self, id: u64) -> (frames: Vec<String>)
        requires
            old(self).wf(),
        ensures
            final(self).wf(),
            final(self).next_id == old(self).next_id,
            has_conn(old(self).conns(), id) ==> {
                let i = conn_index(old(self).conns(), id);
                frames.deep_view() == old(self).conns()[i].outbox && final(self).conns()
                    == old(self).conns().update(
                    i,
                    ConnectionView { id, rooms: old(self).conns()[i].rooms, outbox: Seq::empty() },
                )
            },
            !has_conn(old(self).conns(), id) ==> frames.deep_view() == Seq::<Seq<char>>::empty()
                && final(self).conns() == old(self).conns(),
    {
        let ghost oc = self.conns();
        let idx = self.find_index(id);
        match idx {
            Some(i) => {
                let mut entry = Connection { id: 0, rooms: Vec::new(), outbox: Vec::new() };
                self.connections.set_and_swap(i, &mut entry);
                let taken = entry.outbox;
                self.connections.set(
                    i,
                    Connection { id: entry.id, rooms: entry.rooms, outbox: Vec::new() },
                );
                proof {
                    let ci = conn_index(oc, id);
                    assert(0 <= ci < oc.len() && oc[ci].id == id);
                    if ci != i as int {
                        assert(oc[ci].id != oc[i as int].id);
                    }
                    assert(ci == i as int);
                    assert(taken.deep_view() =~= oc[i as int].outbox);
                    assert(self.conns() =~~= oc.update(
                        i as int,
                        ConnectionView { id, rooms: oc[i as int].rooms, outbox: Seq::empty() },
                    ));
                }
                taken
            },
            None => {
                let taken: Vec<String> = Vec::new();
                proof {
                    assert(taken.deep_view() =~= Seq::<Seq<char>>::empty());
                }
                taken
            },
        }
    }
}

/// Whether a room name is already on the list.
fn has_room(rooms: &Vec<String>, room: &String) -> (b: bool)
    ensures
        b == rooms.deep_view().contains(room@),
{
    let n = rooms.len();
    let mut i: usize = 0;
    while i < n
        invariant
            i <= n,
            n == rooms.len(),
            forall|j: int| 0 <= j < i ==> rooms.deep_view()[j] != room@,
        decreases n - i,
    {
        if rooms[i].eq(room) {
            proof {
                assert(rooms.deep_view()[i as int] == room@);
            }
            return true;
        }
        i = i + 1;
    }
    false
}

/// Removes every occurrence of a room name from the list, keeping the order
/// of the rest.
fn remove_room(rooms: &mut Vec<String>, room: &String)
    ensures
        final(rooms).deep_view() == without_room(old(rooms).deep_view(), room@),
{
    let ghost orig = old(rooms).deep_view();
    let mut kept: Vec<String> = Vec::new();
    let n = rooms.len();
    let mut i: usize = 0;
    while i < n
        invariant
            i <= n,
            n == rooms.len(),
            rooms.deep_view() == orig,
            kept.deep_view() == without_room(orig.take(i as int), room@),
        decreases n - i,
    {
        proof {
            assert(orig.take(i + 1 as int) =~= orig.take(i as int).push(orig[i as int]));
            lemma_without_room_push(orig.take(i as int), room@, orig[i as int]);
        }
        let keep = !rooms[i].eq(room);
        proof {
            assert(keep == !(rooms@[i as int]@ == room@));
            assert(orig[i as int] == rooms@[i as int]@);
        }
        if keep {
            let r = rooms[i].clone();
            kept.push(r);
            proof {
                assert(kept.deep_view() =~~= without_room(orig.take(i + 1 as int), room@));
            }
        } else {
            proof {
                assert(kept.deep_view() =~~= without_room(orig.take(i + 1 as int), room@));
            }
        }
        i = i + 1;
    }
    proof {
        assert(orig.take(n as int) =~= orig);
    }
    core::mem::swap(rooms, &mut kept);
}

/// Filtering with a predicate every element already satisfies changes nothing.
proof fn lemma_filter_identity<A>(s: Seq<A>, pred: spec_fn(A) -> bool)
    requires
        forall|i: int| 0 <= i < s.len() ==> #[trigger] pred(s[i]),
    ensures
        s.filter(pred) == s,
    decreases s.len(),
{
    reveal(Seq::filter);
    if s.len() != 0 {
        assert(forall|i: int|
            0 <= i < s.drop_last().len() ==> #[trigger] pred(s.drop_last()[i]) == pred(s[i]));
        lemma_filter_identity(s.drop_last(), pred);
        assert(s.filter(pred) =~= s);
    }
}

/// Removing the first connection that carries an id is the same as filtering
/// that id out, when ids are unique.
proof fn lemma_remove_index_is_unregister(conns: Seq<ConnectionView>, id: u64, i: int)
    requires
        conn_ids_unique(conns),
        0 <= i < conns.len(),
        conns[i].id == id,
    ensures
        conns.remove(i) == spec_unregister(conns, id),
{
    let pred = |c: ConnectionView| c.id != id;
    let pre = conns.take(i);
    let mid = seq![conns[i]];
    let post = conns.skip(i + 1);
    assert(conns =~= pre + mid + post);
    Seq::filter_distributes_over_add(pre + mid, post, pred);
    Seq::filter_distributes_over_add(pre, mid, pred);
    assert forall|j: int| 0 <= j < pre.len() implies #[trigger] pred(pre[j]) by {
        assert(conns[j].id != conns[i].id);
    }
    lemma_filter_identity(pre, pred);
    assert forall|j: int| 0 <= j < post.len() implies #[trigger] pred(post[j]) by {
        assert(conns[i].id != conns[i + 1 + j].id);
    }
    lemma_filter_identity(post, pred);
    reveal(Seq::filter);
    assert(mid.drop_last() =~= Seq::<ConnectionView>::empty());
    assert(Seq::<ConnectionView>::empty().filter(pred) =~= Seq::<ConnectionView>::empty());
    assert(mid.filter(pred) =~= Seq::<ConnectionView>::empty());
    assert(conns.remove(i) =~= pre + post);
    assert(conns.filter(pred) =~= pre + post);
}

/// After an unregister no connection carries the id.
proof fn lemma_unregister_keeps_none(conns: Seq<ConnectionView>, id: u64)
    ensures
        !has_conn(spec_unregister(conns, id), id),
{
    let pred = |c: ConnectionView| c.id != id;
    let out = conns.filter(pred);
    assert forall|i: int| 0 <= i < out.len() implies out[i].id != id by {
        conns.lemma_filter_pred(pred, i);
    }
}

/// Broadcasting to an empty registry is a no-op: the registry stays empty and
/// nothing fails.
pub proof fn lemma_broadcast_no_connections(conns: Seq<ConnectionView>, frame: Seq<char>)
    requires
        conns.len() == 0,
    ensures
        spec_broadcast(conns, frame) == conns,
{
    assert(spec_broadcast(conns, frame) =~= conns);
}

/// Unregistering an id twice is the same as unregistering it once: the second
/// removal finds nothing and changes nothing.
pub proof fn lemma_unregister_idempotent(conns: Seq<ConnectionView>, id: u64)
    ensures
        spec_unregister(spec_unregister(conns, id), id) == spec_unregister(conns, id),
{
    let pred = |c: ConnectionView| c.id != id;
    let once = conns.filter(pred);
    assert forall|i: int| 0 <= i < once.len() implies #[trigger] pred(once[i]) by {
        conns.lemma_filter_pred(pred, i);
    }
    lemma_filter_identity(once, pred);
}

} // verus!
