use vstd::prelude::*;
use crate::room::{
    Room, RoomModel, absent, contains_name, copy_names, lemma_filter_take, names, rooms_model,
    without_name,
};

verus! {

/// Why a room could not be created.
pub enum RoomError {
    /// The owner already has a room.
    RoomExists,
}

/// Whether some room of `rooms` is owned by `owner`.
pub open spec fn has_room(rooms: Seq<RoomModel>, owner: Seq<char>) -> bool {
    exists|i: int| 0 <= i < rooms.len() && rooms[i].owner == owner
}

/// Whether `who` is a guest of a room owned by `owner`.
pub open spec fn guest_of(rooms: Seq<RoomModel>, owner: Seq<char>, who: Seq<char>) -> bool {
    exists|i: int| 0 <= i < rooms.len() && rooms[i].owner == owner && rooms[i].guests.contains(who)
}

/// Whether `who` is a guest of any room.
pub open spec fn guest_anywhere(rooms: Seq<RoomModel>, who: Seq<char>) -> bool {
    exists|i: int| 0 <= i < rooms.len() && rooms[i].guests.contains(who)
}

/// The room with `who` added as a guest, if `owner` owns it and `who` is not
/// a guest yet.
pub open spec fn with_guest(m: RoomModel, owner: Seq<char>, who: Seq<char>) -> RoomModel {
    if m.owner == owner && !m.guests.contains(who) {
        RoomModel { guests: m.guests.push(who), ..m }
    } else {
        m
    }
}

/// The registry after `who` joined the room of `owner`.
pub open spec fn joined(rooms: Seq<RoomModel>, owner: Seq<char>, who: Seq<char>) -> Seq<RoomModel> {
    rooms.map_values(|m: RoomModel| with_guest(m, owner, who))
}

/// The room without `who` among its guests.
pub open spec fn without_guest(m: RoomModel, who: Seq<char>) -> RoomModel {
    RoomModel { guests: absent(m.guests, who), ..m }
}

/// The registry after `who` left every room.
pub open spec fn left(rooms: Seq<RoomModel>, who: Seq<char>) -> Seq<RoomModel> {
    rooms.map_values(|m: RoomModel| without_guest(m, who))
}

/// The registry without the rooms owned by `owner`.
pub open spec fn deleted(rooms: Seq<RoomModel>, owner: Seq<char>) -> Seq<RoomModel> {
    rooms.filter(|m: RoomModel| m.owner != owner)
}

/// The registry with a new empty room of `owner` at its end.
pub open spec fn created(rooms: Seq<RoomModel>, owner: Seq<char>, name: Seq<char>) -> Seq<RoomModel> {
    rooms.push(RoomModel { owner, name, guests: Seq::empty() })
}

/// The per-connection state that the session logic reads: the identity the
/// client introduced itself with (empty until then).
///
/// The two registries, the presence list of connected identities and the room
/// list, are shared between all sessions; each operation below takes them as
/// arguments, so that a caller can hold a lock over them for exactly the
/// duration of the call.
pub struct State {
    pub name: String,
}

impl State {
    /// A session that has not introduced itself yet.
    pub fn new() -> (r: State)
        ensures
            r.name@ == Seq::<char>::empty(),
    {
        State { name: String::new() }
    }

    /// Removes this session's identity from the presence list.
    pub fn remove_client(&self, clients: &mut Vec<String>)
        ensures
            names(final(clients)@) == absent(names(old(clients)@), self.name@),
    {
        *clients = without_name(clients, &self.name);
    }

    /// Whether a room owned by `owner` exists.
    pub fn is_room_exist(&self, rooms: &Vec<Room>, owner: &String) -> (r: bool)
        ensures
            r == has_room(rooms_model(rooms@), owner@),
    {
        let mut i: usize = 0;
        while i < rooms.len()
            invariant
                i <= rooms.len(),
                forall|j: int| 0 <= j < i ==> rooms@[j].owner@ != owner@,
            decreases rooms.len() - i,
        {
            if rooms[i].owner == *owner {
                assert(rooms_model(rooms@)[i as int].owner == owner@);
                return true;
            }
            i += 1;
        }
        assert(!has_room(rooms_model(rooms@), owner@)) by {
            if has_room(rooms_model(rooms@), owner@) {
                let k = choose|k: int|
                    0 <= k < rooms@.len() && rooms_model(rooms@)[k].owner == owner@;
                assert(rooms@[k].owner@ == owner@);
            }
        }
        false
    }

    /// Whether this session's identity owns a room.
    pub fn has_own_room(&self, rooms: &Vec<Room>) -> (r: bool)
        ensures
            r == has_room(rooms_model(rooms@), self.name@),
    {
        self.is_room_exist(rooms, &self.name)
    }

    /// Whether this session's identity is a guest of the room owned by
    /// `owner_of_room`.
    pub fn is_in_room(&self, rooms: &Vec<Room>, owner_of_room: &String) -> (r: bool)
        ensures
            r == guest_of(rooms_model(rooms@), owner_of_room@, self.name@),
    {
        let mut i: usize = 0;
        while i < rooms.len()
            invariant
                i <= rooms.len(),
                forall|j: int|
                    0 <= j < i ==> !(rooms@[j].owner@ == owner_of_room@ && rooms@[j]@.guests.contains(
                        self.name@,
                    )),
            decreases rooms.len() - i,
        {
            if rooms[i].owner == *owner_of_room && contains_name(&rooms[i].guests, &self.name) {
                assert(rooms_model(rooms@)[i as int] == rooms@[i as int]@);
                return true;
            }
            i += 1;
        }
        assert(!guest_of(rooms_model(rooms@), owner_of_room@, self.name@)) by {
            if guest_of(rooms_model(rooms@), owner_of_room@, self.name@) {
                let k = choose|k: int|
                    0 <= k < rooms@.len() && rooms_model(rooms@)[k].owner == owner_of_room@
                        && rooms_model(rooms@)[k].guests.contains(self.name@);
                assert(rooms_model(rooms@)[k] == rooms@[k]@);
            }
        }
        false
    }

    /// Whether this session's identity is a guest of any room.
    pub fn is_in_any_room(&self, rooms: &Vec<Room>) -> (r: bool)
        ensures
            r == guest_anywhere(rooms_model(rooms@), self.name@),
    {
        let mut i: usize = 0;
        while i < rooms.len()
            invariant
                i <= rooms.len(),
                forall|j: int| 0 <= j < i ==> !rooms@[j]@.guests.contains(self.name@),
            decreases rooms.len() - i,
        {
            if contains_name(&rooms[i].guests, &self.name) {
                assert(rooms_model(rooms@)[i as int] == rooms@[i as int]@);
                return true;
            }
            i += 1;
        }
        assert(!guest_anywhere(rooms_model(rooms@), self.name@)) by {
            if guest_anywhere(rooms_model(rooms@), self.name@) {
                let k = choose|k: int|
                    0 <= k < rooms@.len() && rooms_model(rooms@)[k].guests.contains(self.name@);
                assert(rooms_model(rooms@)[k] == rooms@[k]@);
            }
        }
        false
    }
    /// Adds this session's identity as a guest of the room owned by `room`.
    /// Nothing changes where no such room exists or the identity is already
    /// one of its guests.
    pub fn join_room(&self, rooms: &mut Vec<Room>, room: &String)
        ensures
            rooms_model(final(rooms)@) == joined(rooms_model(old(rooms)@), room@, self.name@),
    {
        let mut out: Vec<Room> = Vec::new();
        let mut i: usize = 0;
        while i < rooms.len()
            invariant
                i <= rooms.len(),
                out@.len() == i,
                forall|j: int|
                    0 <= j < i ==> out@[j]@ == with_guest(rooms@[j]@, room@, self.name@),
            decreases rooms.len() - i,
        {
            let mut r = rooms[i].copy();
            if r.owner == *room && !contains_name(&r.guests, &self.name) {
                let ghost before = r.guests@;
                r.guests.push(self.name.clone());
                assert(names(r.guests@) =~= names(before).push(self.name@));
            }
            out.push(r);
            i += 1;
        }
        assert(rooms_model(out@) =~= joined(rooms_model(rooms@), room@, self.name@));
        *rooms = out;
    }

    /// Removes this session's identity from the guests of every room.
    pub fn leave_room(&self, rooms: &mut Vec<Room>)
        ensures
            rooms_model(final(rooms)@) == left(rooms_model(old(rooms)@), self.name@),
    {
        let mut out: Vec<Room> = Vec::new();
        let mut i: usize = 0;
        while i < rooms.len()
            invariant
                i <= rooms.len(),
                out@.len() == i,
                forall|j: int| 0 <= j < i ==> out@[j]@ == without_guest(rooms@[j]@, self.name@),
            decreases rooms.len() - i,
        {
            let r = Room {
                owner: rooms[i].owner.clone(),
                name: rooms[i].name.clone(),
                guests: without_name(&rooms[i].guests, &self.name),
            };
            out.push(r);
            i += 1;
        }
        assert(rooms_model(out@) =~= left(rooms_model(rooms@), self.name@));
        *rooms = out;
    }

    /// Creates an empty room for `owner`, unless `owner` already has one.
    pub fn add_room(&self, rooms: &mut Vec<Room>, owner: String, name: String) -> (r: Result<
        (),
        RoomError,
    >)
        ensures
            r is Err <==> has_room(rooms_model(old(rooms)@), owner@),
            r is Err ==> rooms_model(final(rooms)@) == rooms_model(old(rooms)@),
            r is Ok ==> rooms_model(final(rooms)@) == created(
                rooms_model(old(rooms)@),
                owner@,
                name@,
            ),
    {
        if self.is_room_exist(rooms, &owner) {
            return Err(RoomError::RoomExists);
        }
        let guests: Vec<String> = Vec::new();
        let ghost before = rooms@;
        rooms.push(Room { owner, name, guests });
        assert(names(guests@) =~= Seq::<Seq<char>>::empty());
        assert(rooms_model(rooms@) =~= created(rooms_model(before), owner@, name@));
        Ok(())
    }

    /// Removes every room owned by this session's identity.
    pub fn delete_room(&self, rooms: &mut Vec<Room>)
        ensures
            rooms_model(final(rooms)@) == deleted(rooms_model(old(rooms)@), self.name@),
    {
        let mut out: Vec<Room> = Vec::new();
        let mut i: usize = 0;
        while i < rooms.len()
            invariant
                i <= rooms.len(),
                rooms_model(out@) == deleted(rooms_model(rooms@).take(i as int), self.name@),
            decreases rooms.len() - i,
        {
            proof {
                lemma_filter_take(rooms_model(rooms@), i as int, |m: RoomModel| m.owner != self.name@);
            }
            if rooms[i].owner != self.name {
                let ghost before = out@;
                out.push(rooms[i].copy());
                assert(rooms_model(out@) =~= rooms_model(before).push(rooms@[i as int]@));
            }
            i += 1;
        }
        assert(rooms_model(rooms@).take(rooms.len() as int) =~= rooms_model(rooms@));
        *rooms = out;
    }
}

} // verus!