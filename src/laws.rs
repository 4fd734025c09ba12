use vstd::prelude::*;
use crate::message::EventModel;
use crate::room::{RoomModel, absent, lemma_filter_from};
use crate::session::{all_from, delivered_to};
use crate::state::{created, deleted, guest_anywhere, guest_of, has_room, joined, left, with_guest, without_guest};

verus! {

/// No event goes back to the session that published it: whatever the room
/// registry holds at delivery time, an event published under identity `me`
/// is not delivered to the session of identity `me`.
pub proof fn lemma_no_self_echo(me: Seq<char>, rooms: Seq<RoomModel>, events: Seq<EventModel>)
    requires
        all_from(events, me),
    ensures
        forall|k: int| 0 <= k < events.len() ==> !delivered_to(me, rooms, #[trigger] events[k]),
{
    assert forall|k: int| 0 <= k < events.len() implies !delivered_to(me, rooms, #[trigger] events[k]) by {
        assert(events[k].sender() == me);
    }
}

/// At most one room per owner.
pub open spec fn owners_unique(rooms: Seq<RoomModel>) -> bool {
    forall|i: int, j: int|
        0 <= i < rooms.len() && 0 <= j < rooms.len() && #[trigger] rooms[i].owner
            == #[trigger] rooms[j].owner ==> i == j
}

/// Creating a room, which happens only for an owner without one, keeps owners
/// unique.
pub proof fn lemma_create_keeps_owners_unique(rooms: Seq<RoomModel>, owner: Seq<char>, name: Seq<char>)
    requires
        owners_unique(rooms),
        !has_room(rooms, owner),
    ensures
        owners_unique(created(rooms, owner, name)),
{
    let c = created(rooms, owner, name);
    assert forall|i: int, j: int|
        0 <= i < c.len() && 0 <= j < c.len() && #[trigger] c[i].owner == #[trigger] c[j].owner implies i
        == j by {
        if i < rooms.len() && j == rooms.len() {
            assert(rooms[i].owner == owner);
        }
        if j < rooms.len() && i == rooms.len() {
            assert(rooms[j].owner == owner);
        }
    }
}

/// Joining the same room twice is the same as joining it once: in particular
/// the guest list of that room has the same length.
pub proof fn lemma_join_idempotent(rooms: Seq<RoomModel>, owner: Seq<char>, who: Seq<char>)
    ensures
        joined(joined(rooms, owner, who), owner, who) == joined(rooms, owner, who),
{
    let once = joined(rooms, owner, who);
    assert forall|i: int| 0 <= i < rooms.len() implies with_guest(#[trigger] once[i], owner, who)
        == once[i] by {
        let m = rooms[i];
        if m.owner == owner && !m.guests.contains(who) {
            assert(m.guests.push(who)[m.guests.len() as int] == who);
        }
    }
    assert(joined(once, owner, who) =~= once);
}

/// Leaving every room a second time changes nothing.
pub proof fn lemma_leave_idempotent(rooms: Seq<RoomModel>, who: Seq<char>)
    ensures
        left(left(rooms, who), who) == left(rooms, who),
{
    let once = left(rooms, who);
    assert forall|i: int| 0 <= i < rooms.len() implies without_guest(#[trigger] once[i], who)
        == once[i] by {
        lemma_absent_idempotent(rooms[i].guests, who);
    }
    assert(left(once, who) =~= once);
}

/// Taking an identity out of a list twice is taking it out once.
pub proof fn lemma_absent_idempotent(s: Seq<Seq<char>>, who: Seq<char>)
    ensures
        absent(absent(s, who), who) == absent(s, who),
    decreases s.len(),
{
    reveal(Seq::filter);
    if s.len() > 0 {
        let rest = s.drop_last();
        lemma_absent_idempotent(rest, who);
        if s.last() != who {
            let once = absent(rest, who).push(s.last());
            assert(once.drop_last() =~= absent(rest, who));
            assert(once.last() == s.last());
        }
    }
}

/// An identity that was taken out of a list is not in it.
pub proof fn lemma_absent_excludes(s: Seq<Seq<char>>, who: Seq<char>)
    ensures
        !absent(s, who).contains(who),
{
    broadcast use vstd::seq_lib::group_filter_ensures;

}

/// After a disconnect of `me`, as `State::disconnect` leaves the registries:
/// `me` is not in the presence list, owns no room, and is a guest of none.
pub proof fn lemma_disconnect_cascade(clients: Seq<Seq<char>>, rooms: Seq<RoomModel>, me: Seq<char>)
    ensures
        !absent(clients, me).contains(me),
        !has_room(deleted(left(rooms, me), me), me),
        !guest_anywhere(deleted(left(rooms, me), me), me),
{
    broadcast use vstd::seq_lib::group_filter_ensures;

    lemma_absent_excludes(clients, me);
    let l = left(rooms, me);
    let d = deleted(l, me);
    lemma_filter_from(l, |m: RoomModel| m.owner != me);
    assert forall|i: int| 0 <= i < d.len() implies !(#[trigger] d[i]).guests.contains(me) by {
        assert(l.contains(d[i]));
        let j = choose|j: int| 0 <= j < l.len() && l[j] == d[i];
        lemma_absent_excludes(rooms[j].guests, me);
    }
    assert forall|i: int| 0 <= i < d.len() implies (#[trigger] d[i]).owner != me by {
        assert((|m: RoomModel| m.owner != me)(d[i]));
    }
}

/// A room message for the room of `room` reaches exactly the sessions of its
/// owner and of its guests, never the one that published it.
pub proof fn lemma_room_message_addressing(
    me: Seq<char>,
    rooms: Seq<RoomModel>,
    from: Seq<char>,
    room: Seq<char>,
    message: Seq<char>,
)
    ensures
        delivered_to(me, rooms, EventModel::RoomMessage { from, room, message }) <==> (me != from && (
        me == room || guest_of(rooms, room, me))),
{
}

} // verus!
