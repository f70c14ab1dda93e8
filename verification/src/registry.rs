//! The membership registry: who is connected, and who is in which room.
//!
//! Both tables live in one structure and change together in each operation.
//! The registry takes no lock itself. It is made to stand behind one lock
//! that every caller waits for: a reader then never sees half of a change,
//! and no change is skipped because the lock was busy.

use std::collections::HashMap;
use vstd::prelude::*;
use vstd::slice::slice_to_vec;
use crate::membership_laws::{
    lemma_empty_consistent,
    lemma_enter_keeps_consistent,
    lemma_enter_lands_once,
    lemma_move_room_keeps_anchored,
    lemma_move_room_keeps_consistent,
    lemma_move_room_lands_once,
    lemma_register_keeps_anchored,
    lemma_register_keeps_consistent,
    lemma_register_lands_once,
    lemma_unregister_keeps_anchored,
    lemma_unregister_keeps_consistent,
    lemma_unregister_removes,
};

verus! {

broadcast use vstd::std_specs::hash::group_hash_axioms;

/// What the relay knows of one connected peer. The socket itself stays with
/// whoever accepted it, filed under the same user id.
#[derive(Debug, PartialEq, Eq)]
pub struct ClientConnection {
    /// The peer's address, as text.
    pub addr: String,
    pub username: String,
    pub current_room: String,
    pub room_id: u64,
    pub user_id: u64,
    /// Seconds since the Unix epoch.
    pub connected_at: u64,
}

/// A connection as a mathematical value.
pub struct ClientConnectionView {
    pub addr: Seq<char>,
    pub username: Seq<char>,
    pub current_room: Seq<char>,
    pub room_id: u64,
    pub user_id: u64,
    pub connected_at: u64,
}

impl View for ClientConnection {
    type V = ClientConnectionView;

    open spec fn view(&self) -> ClientConnectionView {
        ClientConnectionView {
            addr: self.addr@,
            username: self.username@,
            current_room: self.current_room@,
            room_id: self.room_id,
            user_id: self.user_id,
            connected_at: self.connected_at,
        }
    }
}

impl Clone for ClientConnection {
    fn clone(&self) -> (copy: Self)
        ensures
            copy == *self,
    {
        ClientConnection {
            addr: self.addr.clone(),
            username: self.username.clone(),
            current_room: self.current_room.clone(),
            room_id: self.room_id,
            user_id: self.user_id,
            connected_at: self.connected_at,
        }
    }
}

impl ClientConnectionView {
    /// The same connection, now in another room.
    pub open spec fn in_room(self, room: Seq<char>, room_id: u64) -> ClientConnectionView {
        ClientConnectionView {
            addr: self.addr,
            username: self.username,
            current_room: room,
            room_id,
            user_id: self.user_id,
            connected_at: self.connected_at,
        }
    }
}

/// The test that every user but `user_id` passes.
pub open spec fn other_than(user_id: u64) -> spec_fn(u64) -> bool {
    |m: u64| m != user_id
}

/// The test that only `user_id` passes.
pub open spec fn same_as(user_id: u64) -> spec_fn(u64) -> bool {
    |m: u64| m == user_id
}

/// A member list with every occurrence of `user_id` taken out; the others
/// keep their order.
pub open spec fn without(members: Seq<u64>, user_id: u64) -> Seq<u64> {
    members.filter(other_than(user_id))
}

/// How often `user_id` stands in a member list.
pub open spec fn occurrences(members: Seq<u64>, user_id: u64) -> nat {
    members.filter(same_as(user_id)).len()
}

/// The registry as a mathematical value: the connection of each registered
/// user, and the member list of each room that has one.
pub struct RegistryView {
    pub peers: Map<u64, ClientConnectionView>,
    pub rooms: Map<Seq<char>, Seq<u64>>,
}

impl RegistryView {
    /// The registry that knows nobody.
    pub open spec fn empty() -> RegistryView {
        RegistryView { peers: Map::empty(), rooms: Map::empty() }
    }

    /// The members of a room, in the order in which they came. A room
    /// without a list has no members.
    pub open spec fn members_of(self, room: Seq<char>) -> Seq<u64> {
        if self.rooms.contains_key(room) {
            self.rooms[room]
        } else {
            Seq::empty()
        }
    }

    /// Whether a user stands in a room's list.
    pub open spec fn is_member(self, user_id: u64, room: Seq<char>) -> bool {
        self.members_of(room).contains(user_id)
    }

    /// The user is put at the end of a room's list; the list is made if the
    /// room had none. Where else the user stands is not looked at.
    pub open spec fn append(self, user_id: u64, room: Seq<char>) -> RegistryView {
        RegistryView {
            peers: self.peers,
            rooms: self.rooms.insert(room, self.members_of(room).push(user_id)),
        }
    }

    /// The user is taken out of every room's list.
    pub open spec fn leave_all(self, user_id: u64) -> RegistryView {
        RegistryView {
            peers: self.peers,
            rooms: self.rooms.map_values(|members: Seq<u64>| without(members, user_id)),
        }
    }

    /// The user enters a room: it leaves every list that it stands in, and is
    /// put at the end of the room's list.
    pub open spec fn enter(self, user_id: u64, room: Seq<char>) -> RegistryView {
        self.leave_all(user_id).append(user_id, room)
    }

    /// A connection is filed under its user id, in place of an earlier one,
    /// and the user enters the connection's room.
    pub open spec fn register(self, conn: ClientConnectionView) -> RegistryView {
        RegistryView { peers: self.peers.insert(conn.user_id, conn), rooms: self.rooms }.enter(
            conn.user_id,
            conn.current_room,
        )
    }

    /// A registered user enters another room, and its connection names that
    /// room from then on. Of a user without a connection nothing changes.
    pub open spec fn move_room(self, user_id: u64, room: Seq<char>, room_id: u64) -> RegistryView {
        if self.peers.contains_key(user_id) {
            RegistryView {
                peers: self.peers.insert(user_id, self.peers[user_id].in_room(room, room_id)),
                rooms: self.rooms,
            }.enter(user_id, room)
        } else {
            self
        }
    }

    /// The user's connection is dropped, and the user leaves every room.
    pub open spec fn unregister(self, user_id: u64) -> RegistryView {
        RegistryView { peers: self.peers.remove(user_id), rooms: self.rooms }.leave_all(user_id)
    }

    /// No user is a member of two rooms.
    pub open spec fn single_room(self) -> bool {
        forall|user_id: u64, a: Seq<char>, b: Seq<char>|
            self.is_member(user_id, a) && self.is_member(user_id, b) ==> a == b
    }

    /// No list holds a user twice.
    pub open spec fn listed_once(self) -> bool {
        forall|user_id: u64, room: Seq<char>|
            #[trigger] occurrences(self.members_of(room), user_id) <= 1
    }

    /// Every user is in at most one room's list, and at most once there.
    pub open spec fn consistent(self) -> bool {
        self.single_room() && self.listed_once()
    }

    /// A registered user is a member of no room but the one that its
    /// connection names.
    pub open spec fn anchored(self) -> bool {
        forall|user_id: u64, room: Seq<char>|
            self.peers.contains_key(user_id) && #[trigger] self.is_member(user_id, room)
                ==> self.peers[user_id].current_room == room
    }

    /// The user is a member of no room, except perhaps of `room`.
    pub open spec fn nowhere_but(self, user_id: u64, room: Seq<char>) -> bool {
        forall|other: Seq<char>| #[trigger] self.is_member(user_id, other) ==> other == room
    }

    /// The user is in the list of `room`, once, and in no other list.
    pub open spec fn only_in(self, user_id: u64, room: Seq<char>) -> bool {
        occurrences(self.members_of(room), user_id) == 1 && self.nowhere_but(user_id, room)
    }
}

/// One room's list.
struct Room {
    name: String,
    members: Vec<u64>,
}

/// No two entries have the same name.
spec fn distinct_names(rooms: Seq<Room>) -> bool {
    forall|i: int, j: int|
        0 <= i < j < rooms.len() ==> (#[trigger] rooms[i]).name@ != (#[trigger] rooms[j]).name@
}

/// Whether an entry of that name exists.
spec fn has_room(rooms: Seq<Room>, name: Seq<char>) -> bool {
    exists|i: int| 0 <= i < rooms.len() && (#[trigger] rooms[i]).name@ == name
}

/// The place of an entry of that name.
spec fn room_index(rooms: Seq<Room>, name: Seq<char>) -> int {
    choose|i: int| 0 <= i < rooms.len() && (#[trigger] rooms[i]).name@ == name
}

/// The room table as a map from names to member lists.
spec fn rooms_view(rooms: Seq<Room>) -> Map<Seq<char>, Seq<u64>> {
    Map::new(
        |name: Seq<char>| has_room(rooms, name),
        |name: Seq<char>| rooms[room_index(rooms, name)].members@,
    )
}

/// The connection table, each connection as a mathematical value.
spec fn peers_view(peers: Map<u64, ClientConnection>) -> Map<u64, ClientConnectionView> {
    peers.map_values(|c: ClientConnection| c@)
}

/// An entry's name leads to that entry and to no other.
proof fn lemma_room_at(rooms: Seq<Room>, i: int)
    requires
        distinct_names(rooms),
        0 <= i < rooms.len(),
    ensures
        rooms_view(rooms).contains_key(rooms[i].name@),
        rooms_view(rooms)[rooms[i].name@] == rooms[i].members@,
        room_index(rooms, rooms[i].name@) == i,
{
}

/// A name that no entry has is no key of the map.
proof fn lemma_no_room(rooms: Seq<Room>, name: Seq<char>)
    requires
        forall|j: int| 0 <= j < rooms.len() ==> (#[trigger] rooms[j]).name@ != name,
    ensures
        !rooms_view(rooms).contains_key(name),
{
}

/// A table whose entries keep their names keeps them distinct, and has an
/// entry of a name exactly where it had one.
proof fn lemma_names_kept(old_rooms: Seq<Room>, new_rooms: Seq<Room>)
    requires
        distinct_names(old_rooms),
        new_rooms.len() == old_rooms.len(),
        forall|j: int|
            0 <= j < old_rooms.len() ==> (#[trigger] new_rooms[j]).name@ == old_rooms[j].name@,
    ensures
        distinct_names(new_rooms),
        forall|name: Seq<char>| has_room(new_rooms, name) <==> has_room(old_rooms, name),
{
    assert forall|a: int, b: int| 0 <= a < b < new_rooms.len() implies (#[trigger] new_rooms[a]).name@
        != (#[trigger] new_rooms[b]).name@ by {
        assert(old_rooms[a].name@ != old_rooms[b].name@);
    }
    assert forall|name: Seq<char>| has_room(new_rooms, name) <==> has_room(old_rooms, name) by {
        if has_room(new_rooms, name) {
            assert(old_rooms[room_index(new_rooms, name)].name@ == name);
        }
        if has_room(old_rooms, name) {
            assert(new_rooms[room_index(old_rooms, name)].name@ == name);
        }
    }
}

/// Changing the members of entry `i` changes the map at that entry's name
/// and nowhere else.
proof fn lemma_members_changed(old_rooms: Seq<Room>, new_rooms: Seq<Room>, i: int)
    requires
        distinct_names(old_rooms),
        0 <= i < old_rooms.len(),
        new_rooms.len() == old_rooms.len(),
        forall|j: int|
            0 <= j < old_rooms.len() ==> (#[trigger] new_rooms[j]).name@ == old_rooms[j].name@,
        forall|j: int|
            0 <= j < old_rooms.len() && j != i ==> (#[trigger] new_rooms[j]).members@
                == old_rooms[j].members@,
    ensures
        distinct_names(new_rooms),
        rooms_view(new_rooms) == rooms_view(old_rooms).insert(
            old_rooms[i].name@,
            new_rooms[i].members@,
        ),
{
    lemma_names_kept(old_rooms, new_rooms);
    let lhs = rooms_view(new_rooms);
    let rhs = rooms_view(old_rooms).insert(old_rooms[i].name@, new_rooms[i].members@);
    assert forall|name: Seq<char>| lhs.contains_key(name) <==> rhs.contains_key(name) by {
        lemma_room_at(old_rooms, i);
    }
    assert forall|name: Seq<char>| lhs.contains_key(name) implies lhs[name] == rhs[name] by {
        let j = room_index(new_rooms, name);
        lemma_room_at(new_rooms, j);
        lemma_room_at(old_rooms, j);
    }
}

/// An entry with a new name adds that name to the map.
proof fn lemma_room_added(old_rooms: Seq<Room>, room: Room)
    requires
        distinct_names(old_rooms),
        forall|j: int| 0 <= j < old_rooms.len() ==> (#[trigger] old_rooms[j]).name@ != room.name@,
    ensures
        distinct_names(old_rooms.push(room)),
        rooms_view(old_rooms.push(room)) == rooms_view(old_rooms).insert(
            room.name@,
            room.members@,
        ),
{
    let new_rooms = old_rooms.push(room);
    let last = old_rooms.len() as int;
    assert(distinct_names(new_rooms)) by {
        assert forall|a: int, b: int| 0 <= a < b < new_rooms.len() implies (
        #[trigger] new_rooms[a]).name@ != (#[trigger] new_rooms[b]).name@ by {
            if b < last {
                assert(old_rooms[a].name@ != old_rooms[b].name@);
            }
        }
    }
    let lhs = rooms_view(new_rooms);
    let rhs = rooms_view(old_rooms).insert(room.name@, room.members@);
    lemma_room_at(new_rooms, last);
    assert forall|name: Seq<char>| lhs.contains_key(name) <==> rhs.contains_key(name) by {
        if has_room(old_rooms, name) {
            assert(new_rooms[room_index(old_rooms, name)].name@ == name);
        }
    }
    assert forall|name: Seq<char>| lhs.contains_key(name) implies lhs[name] == rhs[name] by {
        let j = room_index(new_rooms, name);
        lemma_room_at(new_rooms, j);
        if j < last {
            lemma_room_at(old_rooms, j);
        }
    }
}

/// Changing every member list in the same way changes every value of the
/// map in that way.
proof fn lemma_members_mapped(
    old_rooms: Seq<Room>,
    new_rooms: Seq<Room>,
    f: spec_fn(Seq<u64>) -> Seq<u64>,
)
    requires
        distinct_names(old_rooms),
        new_rooms.len() == old_rooms.len(),
        forall|j: int|
            0 <= j < old_rooms.len() ==> (#[trigger] new_rooms[j]).name@ == old_rooms[j].name@,
        forall|j: int|
            0 <= j < old_rooms.len() ==> (#[trigger] new_rooms[j]).members@ == f(
                old_rooms[j].members@,
            ),
    ensures
        distinct_names(new_rooms),
        rooms_view(new_rooms) == rooms_view(old_rooms).map_values(f),
{
    lemma_names_kept(old_rooms, new_rooms);
    let lhs = rooms_view(new_rooms);
    let rhs = rooms_view(old_rooms).map_values(f);
    assert forall|name: Seq<char>| lhs.contains_key(name) implies lhs[name] == rhs[name] by {
        let j = room_index(new_rooms, name);
        lemma_room_at(new_rooms, j);
        lemma_room_at(old_rooms, j);
    }
}

/// A copy of a member list without one user.
fn strip(members: &Vec<u64>, user_id: u64) -> (kept: Vec<u64>)
    ensures
        kept@ == without(members@, user_id),
{
    let ghost keep = other_than(user_id);
    let mut kept: Vec<u64> = Vec::new();
    let mut i: usize = 0;
    proof {
        reveal(Seq::filter);
    }
    while i < members.len()
        invariant
            0 <= i <= members.len(),
            keep == other_than(user_id),
            kept@ == members@.take(i as int).filter(keep),
        decreases members.len() - i,
    {
        let m = members[i];
        proof {
            assert(members@.take(i as int + 1) =~= members@.take(i as int).push(m));
            members@.take(i as int).lemma_filter_push(m, keep);
        }
        if m != user_id {
            kept.push(m);
        }
        i += 1;
    }
    assert(members@.take(i as int) =~= members@);
    kept
}

/// The room table alone as a registry, to speak of its changes.
spec fn table(rooms: Seq<Room>) -> RegistryView {
    RegistryView { peers: Map::empty(), rooms: rooms_view(rooms) }
}

fn find_room(rooms: &Vec<Room>, name: &String) -> (found: Option<usize>)
    ensures
        match found {
            Some(i) => i < rooms.len() && rooms[i as int].name@ == name@,
            None => forall|j: int| 0 <= j < rooms.len() ==> (#[trigger] rooms[j]).name@ != name@,
        },
{
    let mut i: usize = 0;
    while i < rooms.len()
        invariant
            0 <= i <= rooms.len(),
            forall|j: int| 0 <= j < i ==> (#[trigger] rooms[j]).name@ != name@,
        decreases rooms.len() - i,
    {
        if rooms[i].name == *name {
            return Some(i);
        }
        i += 1;
    }
    None
}

fn append_to_room(rooms: &mut Vec<Room>, user_id: u64, room: String)
    requires
        distinct_names(old(rooms)@),
    ensures
        distinct_names(final(rooms)@),
        rooms_view(final(rooms)@) == table(old(rooms)@).append(user_id, room@).rooms,
{
    let ghost before = rooms@;
    match find_room(rooms, &room) {
        Some(i) => {
            rooms[i].members.push(user_id);
            proof {
                lemma_room_at(before, i as int);
                lemma_members_changed(before, rooms@, i as int);
            }
        },
        None => {
            let mut members: Vec<u64> = Vec::new();
            members.push(user_id);
            let entry = Room { name: room, members };
            proof {
                lemma_no_room(before, room@);
                lemma_room_added(before, entry);
            }
            rooms.push(entry);
        },
    }
}

fn leave_every_room(rooms: &mut Vec<Room>, user_id: u64)
    requires
        distinct_names(old(rooms)@),
    ensures
        distinct_names(final(rooms)@),
        rooms_view(final(rooms)@) == table(old(rooms)@).leave_all(user_id).rooms,
{
    let ghost before = rooms@;
    let mut i: usize = 0;
    while i < rooms.len()
        invariant
            0 <= i <= rooms.len(),
            rooms.len() == before.len(),
            forall|j: int| 0 <= j < before.len() ==> (#[trigger] rooms[j]).name@ == before[j].name@,
            forall|j: int|
                0 <= j < i ==> (#[trigger] rooms[j]).members@ == without(
                    before[j].members@,
                    user_id,
                ),
            forall|j: int|
                i <= j < before.len() ==> (#[trigger] rooms[j]).members@ == before[j].members@,
            distinct_names(before),
            distinct_names(rooms@),
        decreases rooms.len() - i,
    {
        let kept = strip(&rooms[i].members, user_id);
        let ghost step = rooms@;
        rooms[i].members = kept;
        proof {
            lemma_members_changed(step, rooms@, i as int);
        }
        i += 1;
    }
    proof {
        lemma_members_mapped(before, rooms@, |members: Seq<u64>| without(members, user_id));
    }
}

fn enter_room(rooms: &mut Vec<Room>, user_id: u64, room: String)
    requires
        distinct_names(old(rooms)@),
    ensures
        distinct_names(final(rooms)@),
        rooms_view(final(rooms)@) == table(old(rooms)@).enter(user_id, room@).rooms,
{
    leave_every_room(rooms, user_id);
    assert(table(rooms@) == table(old(rooms)@).leave_all(user_id));
    append_to_room(rooms, user_id, room);
}

/// The membership registry of a relay server.
pub struct MembershipRegistry {
    peers: HashMap<u64, ClientConnection>,
    rooms: Vec<Room>,
}

impl View for MembershipRegistry {
    type V = RegistryView;

    closed spec fn view(&self) -> RegistryView {
        RegistryView { peers: peers_view(self.peers@), rooms: rooms_view(self.rooms@) }
    }
}

impl MembershipRegistry {
    #[verifier::type_invariant]
    spec fn well_formed(self) -> bool {
        distinct_names(self.rooms@)
    }

    /// A registry that knows nobody.
    pub fn new() -> (registry: MembershipRegistry)
        ensures
            registry@ == RegistryView::empty(),
            registry@.consistent(),
            registry@.anchored(),
    {
        proof {
            lemma_empty_consistent();
        }
        let registry = MembershipRegistry { peers: HashMap::new(), rooms: Vec::new() };
        assert(registry@.peers =~= Map::empty());
        assert(registry@.rooms =~= Map::empty());
        registry
    }

    /// The members of a room, in the order in which they entered it.
    pub fn members_of(&self, room: &String) -> (members: Vec<u64>)
        ensures
            members@ == self@.members_of(room@),
    {
        proof {
            use_type_invariant(self);
        }
        match find_room(&self.rooms, room) {
            Some(i) => {
                proof {
                    lemma_room_at(self.rooms@, i as int);
                }
                slice_to_vec(self.rooms[i].members.as_slice())
            },
            None => {
                proof {
                    lemma_no_room(self.rooms@, room@);
                }
                Vec::new()
            },
        }
    }

    /// The connection that is filed under a user id, if there is one.
    pub fn peer(&self, user_id: u64) -> (found: Option<&ClientConnection>)
        ensures
            match found {
                Some(conn) => self@.peers.contains_key(user_id) && self@.peers[user_id] == conn@,
                None => !self@.peers.contains_key(user_id),
            },
    {
        self.peers.get(&user_id)
    }

    /// Whether a connection is filed under a user id.
    pub fn is_registered(&self, user_id: u64) -> (found: bool)
        ensures
            found == self@.peers.contains_key(user_id),
    {
        self.peers.contains_key(&user_id)
    }

    /// Lets a user enter a room: the user leaves every list that it stands
    /// in and is put at the end of the room's list, which is made if the room
    /// had none. The user gets no connection by this: it is how a server
    /// takes part in a room itself.
    ///
    /// Afterwards the user is in that room's list, once, and in no other, and
    /// a consistent registry is still consistent.
    pub fn enter(&mut self, user_id: u64, room: String)
        ensures
            final(self)@ == old(self)@.enter(user_id, room@),
            final(self)@.only_in(user_id, room@),
            old(self)@.consistent() ==> final(self)@.consistent(),
    {
        proof {
            use_type_invariant(&*self);
            lemma_enter_lands_once(self@, user_id, room@);
            if self@.consistent() {
                lemma_enter_keeps_consistent(self@, user_id, room@);
            }
        }
        // The table is taken out of the registry while it changes, and put
        // back once its names are distinct again.
        let mut rooms: Vec<Room> = Vec::new();
        core::mem::swap(&mut self.rooms, &mut rooms);
        enter_room(&mut rooms, user_id, room);
        core::mem::swap(&mut self.rooms, &mut rooms);
    }

    /// Files a connection under its user id, in place of an earlier one, and
    /// lets the user enter the connection's room: out of every list that it
    /// stands in, and to the end of that room's list.
    ///
    /// Afterwards the user is in that room's list, once, and in no other. A
    /// consistent registry is still consistent, and if each connection named
    /// its user's room before, each does so now.
    pub fn register(&mut self, conn: ClientConnection)
        ensures
            final(self)@ == old(self)@.register(conn@),
            final(self)@.only_in(conn.user_id, conn.current_room@),
            old(self)@.consistent() ==> final(self)@.consistent(),
            old(self)@.anchored() ==> final(self)@.anchored(),
    {
        proof {
            use_type_invariant(&*self);
            lemma_register_lands_once(self@, conn@);
            if self@.consistent() {
                lemma_register_keeps_consistent(self@, conn@);
            }
            if self@.anchored() {
                lemma_register_keeps_anchored(self@, conn@);
            }
        }
        let user_id = conn.user_id;
        let room = conn.current_room.clone();
        let ghost before = self.peers@;
        let mut peers: HashMap<u64, ClientConnection> = HashMap::new();
        core::mem::swap(&mut self.peers, &mut peers);
        peers.insert(user_id, conn);
        core::mem::swap(&mut self.peers, &mut peers);
        assert(peers_view(self.peers@) =~= peers_view(before).insert(user_id, conn@));
        let mut rooms: Vec<Room> = Vec::new();
        core::mem::swap(&mut self.rooms, &mut rooms);
        enter_room(&mut rooms, user_id, room);
        core::mem::swap(&mut self.rooms, &mut rooms);
    }

    /// Moves a registered user to another room: out of every list that it
    /// stands in, the connection updated, to the end of the new list, in one
    /// step. Of a user without a connection nothing changes.
    ///
    /// A user that was moved is in the new room's list, once, and in no
    /// other. A consistent registry is still consistent, and if each
    /// connection named its user's room before, each does so now.
    pub fn move_room(&mut self, user_id: u64, room: String, room_id: u64)
        ensures
            final(self)@ == old(self)@.move_room(user_id, room@, room_id),
            old(self)@.peers.contains_key(user_id) ==> final(self)@.only_in(user_id, room@),
            old(self)@.consistent() ==> final(self)@.consistent(),
            old(self)@.anchored() ==> final(self)@.anchored(),
    {
        proof {
            use_type_invariant(&*self);
            if self@.peers.contains_key(user_id) {
                lemma_move_room_lands_once(self@, user_id, room@, room_id);
            }
            if self@.consistent() {
                lemma_move_room_keeps_consistent(self@, user_id, room@, room_id);
            }
            if self@.anchored() {
                lemma_move_room_keeps_anchored(self@, user_id, room@, room_id);
            }
        }
        let found = match self.peers.get(&user_id) {
            Some(conn) => Some(conn.clone()),
            None => None,
        };
        match found {
            Some(conn) => {
                let ghost before = self.peers@;
                let moved = ClientConnection {
                    addr: conn.addr,
                    username: conn.username,
                    current_room: room.clone(),
                    room_id,
                    user_id: conn.user_id,
                    connected_at: conn.connected_at,
                };
                let mut peers: HashMap<u64, ClientConnection> = HashMap::new();
                core::mem::swap(&mut self.peers, &mut peers);
                peers.insert(user_id, moved);
                core::mem::swap(&mut self.peers, &mut peers);
                assert(peers_view(self.peers@) =~= peers_view(before).insert(user_id, moved@));
                let mut rooms: Vec<Room> = Vec::new();
                core::mem::swap(&mut self.rooms, &mut rooms);
                enter_room(&mut rooms, user_id, room);
                core::mem::swap(&mut self.rooms, &mut rooms);
            },
            None => {},
        }
    }

    /// Drops a user's connection and takes the user out of every room.
    ///
    /// Afterwards the user is in no list. A consistent registry is still
    /// consistent, and if each connection named its user's room before, each
    /// does so now.
    pub fn unregister(&mut self, user_id: u64)
        ensures
            final(self)@ == old(self)@.unregister(user_id),
            forall|room: Seq<char>| !final(self)@.is_member(user_id, room),
            old(self)@.consistent() ==> final(self)@.consistent(),
            old(self)@.anchored() ==> final(self)@.anchored(),
    {
        proof {
            use_type_invariant(&*self);
            assert forall|room: Seq<char>| !self@.unregister(user_id).is_member(user_id, room) by {
                lemma_unregister_removes(self@, user_id, room);
            }
            if self@.consistent() {
                lemma_unregister_keeps_consistent(self@, user_id);
            }
            if self@.anchored() {
                lemma_unregister_keeps_anchored(self@, user_id);
            }
        }
        let ghost before = self.peers@;
        let mut peers: HashMap<u64, ClientConnection> = HashMap::new();
        core::mem::swap(&mut self.peers, &mut peers);
        peers.remove(&user_id);
        core::mem::swap(&mut self.peers, &mut peers);
        assert(peers_view(self.peers@) =~= peers_view(before).remove(user_id));
        let mut rooms: Vec<Room> = Vec::new();
        core::mem::swap(&mut self.rooms, &mut rooms);
        leave_every_room(&mut rooms, user_id);
        core::mem::swap(&mut self.rooms, &mut rooms);
    }
}

} // verus!
