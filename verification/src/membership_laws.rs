//! What holds of the membership registry whatever is done to it.

use vstd::prelude::*;
use crate::registry::{
    ClientConnectionView,
    RegistryView,
    occurrences,
    other_than,
    same_as,
    without,
};

verus! {

/// Taking one user out of a list removes that user and nobody else.
pub proof fn lemma_without_contains(members: Seq<u64>, gone: u64, user_id: u64)
    ensures
        without(members, gone).contains(user_id) <==> (members.contains(user_id) && user_id
            != gone),
{
    let keep = other_than(gone);
    if without(members, gone).contains(user_id) {
        members.lemma_filter_contains_rev(keep, user_id);
        let j = choose|j: int|
            0 <= j < members.filter(keep).len() && members.filter(keep)[j] == user_id;
        members.lemma_filter_pred(keep, j);
    }
    if members.contains(user_id) && user_id != gone {
        let i = choose|i: int| 0 <= i < members.len() && members[i] == user_id;
        members.lemma_filter_contains(keep, i);
    }
}

/// One more member at the end of a list occurs once more; nobody else's
/// count changes.
pub proof fn lemma_push_occurrences(members: Seq<u64>, who: u64, user_id: u64)
    ensures
        occurrences(members.push(who), user_id) == occurrences(members, user_id) + if user_id
            == who {
            1nat
        } else {
            0nat
        },
{
    members.lemma_filter_push(who, same_as(user_id));
}

/// Taking one user out of a list leaves that user with no occurrence and
/// everybody else with as many as before.
pub proof fn lemma_without_occurrences(members: Seq<u64>, gone: u64, user_id: u64)
    ensures
        occurrences(without(members, gone), user_id) == if user_id == gone {
            0
        } else {
            occurrences(members, user_id)
        },
    decreases members.len(),
{
    reveal(Seq::filter);
    if members.len() > 0 {
        let rest = members.drop_last();
        let last = members.last();
        lemma_without_occurrences(rest, gone, user_id);
        assert(members =~= rest.push(last));
        rest.lemma_filter_push(last, other_than(gone));
        lemma_push_occurrences(rest, last, user_id);
        if last != gone {
            lemma_push_occurrences(without(rest, gone), last, user_id);
        }
    }
}

/// Who is where after a user was put at the end of a room's list: everybody
/// as before, and that user in that room.
pub proof fn lemma_append_membership(
    s: RegistryView,
    who: u64,
    room: Seq<char>,
    user_id: u64,
    other: Seq<char>,
)
    ensures
        s.append(who, room).is_member(user_id, other) <==> (s.is_member(user_id, other) || (user_id
            == who && other == room)),
{
    if other == room {
        let before = s.members_of(room);
        if s.is_member(user_id, other) {
            let i = choose|i: int| 0 <= i < before.len() && before[i] == user_id;
            assert(before.push(who)[i] == user_id);
        }
        if user_id == who {
            assert(before.push(who)[before.len() as int] == who);
        }
    }
}

/// Who is where after a user has left every room: everybody as before, and
/// that user nowhere.
pub proof fn lemma_leave_all_membership(
    s: RegistryView,
    who: u64,
    user_id: u64,
    other: Seq<char>,
)
    ensures
        s.leave_all(who).is_member(user_id, other) <==> (s.is_member(user_id, other) && user_id
            != who),
{
    if s.rooms.contains_key(other) {
        lemma_without_contains(s.members_of(other), who, user_id);
    }
}

/// Who is where after a user has entered a room: that user in that room and
/// in no other, everybody else as before.
pub proof fn lemma_enter_membership(
    s: RegistryView,
    who: u64,
    room: Seq<char>,
    user_id: u64,
    other: Seq<char>,
)
    ensures
        s.enter(who, room).is_member(user_id, other) <==> if user_id == who {
            other == room
        } else {
            s.is_member(user_id, other)
        },
{
    lemma_leave_all_membership(s, who, user_id, other);
    lemma_append_membership(s.leave_all(who), who, room, user_id, other);
}

/// How often somebody stands in a list after a user has entered a room: that
/// user once in that room's list and never in another, everybody else as
/// often as before.
pub proof fn lemma_enter_occurrences(
    s: RegistryView,
    who: u64,
    room: Seq<char>,
    user_id: u64,
    other: Seq<char>,
)
    ensures
        occurrences(s.enter(who, room).members_of(other), user_id) == if user_id == who {
            if other == room {
                1nat
            } else {
                0nat
            }
        } else {
            occurrences(s.members_of(other), user_id)
        },
{
    let left = s.leave_all(who);
    lemma_leave_all_occurrences(s, who, user_id, other);
    if other == room {
        lemma_push_occurrences(left.members_of(room), who, user_id);
    }
}

/// How often somebody stands in a list after a user has left every room:
/// that user never, everybody else as often as before.
pub proof fn lemma_leave_all_occurrences(
    s: RegistryView,
    who: u64,
    user_id: u64,
    other: Seq<char>,
)
    ensures
        occurrences(s.leave_all(who).members_of(other), user_id) == if user_id == who {
            0
        } else {
            occurrences(s.members_of(other), user_id)
        },
{
    lemma_without_occurrences(s.members_of(other), who, user_id);
    if !s.rooms.contains_key(other) {
        reveal(Seq::filter);
    }
}

/// The empty registry is consistent, and each of its connections, of which
/// there are none, names its user's room.
pub proof fn lemma_empty_consistent()
    ensures
        RegistryView::empty().consistent(),
        RegistryView::empty().anchored(),
{
    reveal(Seq::filter);
    assert forall|user_id: u64, room: Seq<char>| !RegistryView::empty().is_member(
        user_id,
        room,
    ) by {}
}

/// After it has entered a room, a user is in that room's list, once, and in
/// no other, whatever the registry held.
pub proof fn lemma_enter_lands_once(s: RegistryView, user_id: u64, room: Seq<char>)
    ensures
        s.enter(user_id, room).only_in(user_id, room),
{
    lemma_enter_occurrences(s, user_id, room, user_id, room);
    assert forall|other: Seq<char>| #[trigger]
        s.enter(user_id, room).is_member(user_id, other) implies other == room by {
        lemma_enter_membership(s, user_id, room, user_id, other);
    }
}

/// Entering a room keeps the registry consistent.
pub proof fn lemma_enter_keeps_consistent(s: RegistryView, user_id: u64, room: Seq<char>)
    requires
        s.consistent(),
    ensures
        s.enter(user_id, room).consistent(),
{
    let t = s.enter(user_id, room);
    assert forall|u: u64, a: Seq<char>, b: Seq<char>|
        t.is_member(u, a) && t.is_member(u, b) implies a == b by {
        lemma_enter_membership(s, user_id, room, u, a);
        lemma_enter_membership(s, user_id, room, u, b);
    }
    assert forall|u: u64, r: Seq<char>| #[trigger] occurrences(t.members_of(r), u) <= 1 by {
        lemma_enter_occurrences(s, user_id, room, u, r);
        assert(occurrences(s.members_of(r), u) <= 1);
    }
}

/// The registry with a connection filed under a user id, before the user
/// enters a room.
pub open spec fn filed(s: RegistryView, user_id: u64, conn: ClientConnectionView) -> RegistryView {
    RegistryView { peers: s.peers.insert(user_id, conn), rooms: s.rooms }
}

/// Whether a registry is consistent lies with its room lists alone.
pub proof fn lemma_rooms_decide(s: RegistryView, t: RegistryView)
    requires
        s.rooms == t.rooms,
        s.consistent(),
    ensures
        t.consistent(),
{
    assert forall|u: u64, a: Seq<char>, b: Seq<char>|
        t.is_member(u, a) && t.is_member(u, b) implies a == b by {
        assert(s.is_member(u, a) && s.is_member(u, b));
    }
    assert forall|u: u64, r: Seq<char>| #[trigger] occurrences(t.members_of(r), u) <= 1 by {
        assert(occurrences(s.members_of(r), u) <= 1);
    }
}

/// Filing a connection and letting its user enter a room keeps the registry
/// consistent.
pub proof fn lemma_filed_keeps_consistent(
    s: RegistryView,
    user_id: u64,
    conn: ClientConnectionView,
    room: Seq<char>,
)
    requires
        s.consistent(),
    ensures
        filed(s, user_id, conn).enter(user_id, room).consistent(),
{
    lemma_rooms_decide(s, filed(s, user_id, conn));
    lemma_enter_keeps_consistent(filed(s, user_id, conn), user_id, room);
}

/// If each connection names its user's room, it does so after a connection
/// that names a room was filed and its user has entered that room.
pub proof fn lemma_filed_keeps_anchored(
    s: RegistryView,
    user_id: u64,
    conn: ClientConnectionView,
)
    requires
        s.anchored(),
    ensures
        filed(s, user_id, conn).enter(user_id, conn.current_room).anchored(),
{
    let t = filed(s, user_id, conn).enter(user_id, conn.current_room);
    assert forall|u: u64, r: Seq<char>|
        t.peers.contains_key(u) && #[trigger] t.is_member(u, r) implies t.peers[u].current_room
        == r by {
        lemma_enter_membership(filed(s, user_id, conn), user_id, conn.current_room, u, r);
        if u != user_id {
            assert(s.is_member(u, r));
        }
    }
}

/// After a registration the user is in the room that its connection names,
/// once, and in no other, whatever the registry held.
pub proof fn lemma_register_lands_once(s: RegistryView, conn: ClientConnectionView)
    ensures
        s.register(conn).only_in(conn.user_id, conn.current_room),
{
    lemma_enter_lands_once(filed(s, conn.user_id, conn), conn.user_id, conn.current_room);
}

/// Registering keeps the registry consistent.
pub proof fn lemma_register_keeps_consistent(s: RegistryView, conn: ClientConnectionView)
    requires
        s.consistent(),
    ensures
        s.register(conn).consistent(),
{
    lemma_filed_keeps_consistent(s, conn.user_id, conn, conn.current_room);
}

/// If each connection names its user's room, it does so after a
/// registration.
pub proof fn lemma_register_keeps_anchored(s: RegistryView, conn: ClientConnectionView)
    requires
        s.anchored(),
    ensures
        s.register(conn).anchored(),
{
    lemma_filed_keeps_anchored(s, conn.user_id, conn);
}

/// After a move a registered user is in the new room, once, and in no other,
/// whatever the registry held.
pub proof fn lemma_move_room_lands_once(
    s: RegistryView,
    user_id: u64,
    room: Seq<char>,
    room_id: u64,
)
    requires
        s.peers.contains_key(user_id),
    ensures
        s.move_room(user_id, room, room_id).only_in(user_id, room),
{
    lemma_enter_lands_once(
        filed(s, user_id, s.peers[user_id].in_room(room, room_id)),
        user_id,
        room,
    );
}

/// Moving a user to another room keeps the registry consistent.
pub proof fn lemma_move_room_keeps_consistent(
    s: RegistryView,
    user_id: u64,
    room: Seq<char>,
    room_id: u64,
)
    requires
        s.consistent(),
    ensures
        s.move_room(user_id, room, room_id).consistent(),
{
    if s.peers.contains_key(user_id) {
        lemma_filed_keeps_consistent(s, user_id, s.peers[user_id].in_room(room, room_id), room);
    }
}

/// If each connection names its user's room, it does so after a move.
pub proof fn lemma_move_room_keeps_anchored(
    s: RegistryView,
    user_id: u64,
    room: Seq<char>,
    room_id: u64,
)
    requires
        s.anchored(),
    ensures
        s.move_room(user_id, room, room_id).anchored(),
{
    if s.peers.contains_key(user_id) {
        lemma_filed_keeps_anchored(s, user_id, s.peers[user_id].in_room(room, room_id));
    }
}

/// Unregistering leaves the user in no room and without a connection,
/// whatever the registry held.
pub proof fn lemma_unregister_removes(s: RegistryView, user_id: u64, room: Seq<char>)
    ensures
        !s.unregister(user_id).is_member(user_id, room),
        !s.unregister(user_id).peers.contains_key(user_id),
{
    let dropped = RegistryView { peers: s.peers.remove(user_id), rooms: s.rooms };
    lemma_leave_all_membership(dropped, user_id, user_id, room);
}

/// Unregistering a user keeps the registry consistent.
pub proof fn lemma_unregister_keeps_consistent(s: RegistryView, user_id: u64)
    requires
        s.consistent(),
    ensures
        s.unregister(user_id).consistent(),
{
    let dropped = RegistryView { peers: s.peers.remove(user_id), rooms: s.rooms };
    let t = s.unregister(user_id);
    assert forall|u: u64, a: Seq<char>, b: Seq<char>|
        t.is_member(u, a) && t.is_member(u, b) implies a == b by {
        lemma_leave_all_membership(dropped, user_id, u, a);
        lemma_leave_all_membership(dropped, user_id, u, b);
        assert(s.is_member(u, a) && s.is_member(u, b));
    }
    assert forall|u: u64, r: Seq<char>| #[trigger] occurrences(t.members_of(r), u) <= 1 by {
        lemma_leave_all_occurrences(dropped, user_id, u, r);
        assert(occurrences(s.members_of(r), u) <= 1);
    }
}

/// If each connection names its user's room, it does so after a user was
/// unregistered.
pub proof fn lemma_unregister_keeps_anchored(s: RegistryView, user_id: u64)
    requires
        s.anchored(),
    ensures
        s.unregister(user_id).anchored(),
{
    let dropped = RegistryView { peers: s.peers.remove(user_id), rooms: s.rooms };
    let t = s.unregister(user_id);
    assert forall|u: u64, r: Seq<char>|
        t.peers.contains_key(u) && #[trigger] t.is_member(u, r) implies t.peers[u].current_room
        == r by {
        lemma_leave_all_membership(dropped, user_id, u, r);
        assert(s.is_member(u, r));
    }
}

/// One change to the registry.
pub enum RegistryOp {
    Register(ClientConnectionView),
    MoveRoom { user_id: u64, room: Seq<char>, room_id: u64 },
    Unregister(u64),
}

/// The registry after one change.
pub open spec fn apply(s: RegistryView, op: RegistryOp) -> RegistryView {
    match op {
        RegistryOp::Register(conn) => s.register(conn),
        RegistryOp::MoveRoom { user_id, room, room_id } => s.move_room(user_id, room, room_id),
        RegistryOp::Unregister(user_id) => s.unregister(user_id),
    }
}

/// The registry after a sequence of changes, the first one first.
pub open spec fn run(s: RegistryView, ops: Seq<RegistryOp>) -> RegistryView
    decreases ops.len(),
{
    if ops.len() == 0 {
        s
    } else {
        apply(run(s, ops.drop_last()), ops.last())
    }
}

/// One change keeps a consistent registry consistent, and keeps each
/// connection naming its user's room.
pub proof fn lemma_apply_keeps_consistent(s: RegistryView, op: RegistryOp)
    ensures
        s.consistent() ==> apply(s, op).consistent(),
        s.anchored() ==> apply(s, op).anchored(),
{
    match op {
        RegistryOp::Register(conn) => {
            if s.consistent() {
                lemma_register_keeps_consistent(s, conn);
            }
            if s.anchored() {
                lemma_register_keeps_anchored(s, conn);
            }
        },
        RegistryOp::MoveRoom { user_id, room, room_id } => {
            if s.consistent() {
                lemma_move_room_keeps_consistent(s, user_id, room, room_id);
            }
            if s.anchored() {
                lemma_move_room_keeps_anchored(s, user_id, room, room_id);
            }
        },
        RegistryOp::Unregister(user_id) => {
            if s.consistent() {
                lemma_unregister_keeps_consistent(s, user_id);
            }
            if s.anchored() {
                lemma_unregister_keeps_anchored(s, user_id);
            }
        },
    }
}

/// A sequence of changes keeps a consistent registry consistent, and keeps
/// each connection naming its user's room.
pub proof fn lemma_run_keeps_consistent(s: RegistryView, ops: Seq<RegistryOp>)
    ensures
        s.consistent() ==> run(s, ops).consistent(),
        s.anchored() ==> run(s, ops).anchored(),
    decreases ops.len(),
{
    if ops.len() > 0 {
        lemma_run_keeps_consistent(s, ops.drop_last());
        lemma_apply_keeps_consistent(run(s, ops.drop_last()), ops.last());
    }
}

/// After any sequence of registrations, moves and removals, and at every
/// point on the way, no user is a member of two rooms, no list holds a user
/// twice, and a registered user is in no room but the one that its
/// connection names.
pub proof fn lemma_never_in_two_rooms(ops: Seq<RegistryOp>, n: int)
    requires
        0 <= n <= ops.len(),
    ensures
        run(RegistryView::empty(), ops.take(n)).single_room(),
        run(RegistryView::empty(), ops.take(n)).listed_once(),
        run(RegistryView::empty(), ops.take(n)).anchored(),
{
    lemma_empty_consistent();
    lemma_run_keeps_consistent(RegistryView::empty(), ops.take(n));
}

} // verus!
