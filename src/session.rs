use vstd::prelude::*;
use crate::message::{EventModel, Message, events_model};
use crate::request::Request;
use crate::response::{ReplyModel, Response, replies_model};
use crate::room::{
    Room, RoomModel, absent, copy_names, copy_rooms, lemma_filter_all, names, rooms_model,
};
use crate::state::{RoomError, State, created, deleted, guest_of, has_room, joined, left};

verus! {

/// What one read of a session's connection produced.
pub enum Inbound {
    /// A complete, decoded request.
    Request(Request),
    /// The peer closed the stream (a read of zero bytes).
    Closed,
    /// The read failed.
    Failed,
    /// The bytes read did not decode to a request.
    Malformed,
}

/// What a session does after handling one input.
pub enum Next {
    /// Keep serving the connection.
    Continue,
    /// Read exactly `size` raw bytes of a file body from the connection, then
    /// hand them to `State::on_file_read` with `room` and `filename`.
    ReadFile { room: String, filename: String, size: usize },
    /// Drop the connection.
    Close,
}

/// The effects of handling one input: responses to write to the session's own
/// connection, events to publish on the bus, both in order, and what comes next.
pub struct Step {
    pub replies: Vec<Response>,
    pub events: Vec<Message>,
    pub next: Next,
}

/// What a receive on the session's bus subscription produced.
pub enum Received {
    Event(Message),
    /// The subscriber fell behind and this many events were lost.
    Lagged(u64),
    /// The bus is shut down.
    Closed,
}

/// What a session writes to its own connection for one bus receive.
pub enum Delivery {
    /// Nothing: the event is not for this session.
    Skip,
    Reply(Response),
    /// A file header, followed on the stream by the raw bytes.
    File(Response, Vec<u8>),
    /// The bus is gone: end the session.
    Stop,
}

/// Whether the session of identity `me` is an addressee of the event `e`,
/// given the room registry at delivery time. No event goes back to the
/// identity that published it.
pub open spec fn delivered_to(me: Seq<char>, rooms: Seq<RoomModel>, e: EventModel) -> bool {
    match e {
        EventModel::Update { from } => from != me,
        EventModel::UpdateRoom { from } => from != me,
        EventModel::UpdateAll { from } => from != me,
        EventModel::DirectMessage { from, to, .. } => from != me && to == me,
        EventModel::RoomMessage { from, room, .. } => from != me && (room == me || guest_of(
            rooms,
            room,
            me,
        )),
        EventModel::SendFile { from, room, .. } => from != me && (room == me || guest_of(
            rooms,
            room,
            me,
        )),
    }
}

/// The response that renders the event `e` for a recipient, given snapshots
/// of both registries.
pub open spec fn rendered(e: EventModel, clients: Seq<Seq<char>>, rooms: Seq<RoomModel>) -> ReplyModel {
    match e {
        EventModel::Update { .. } => ReplyModel::Update { clients },
        EventModel::UpdateRoom { .. } => ReplyModel::UpdateRooms { rooms },
        EventModel::UpdateAll { .. } => ReplyModel::UpdateAll { clients, rooms },
        EventModel::DirectMessage { from, message, .. } => ReplyModel::DirectMessage { from, message },
        EventModel::RoomMessage { from, room, message } => ReplyModel::RoomMessage {
            from,
            room,
            message,
        },
        EventModel::SendFile { from, room, filename, data } => ReplyModel::SendFile {
            from,
            room,
            filename,
            size: data.len(),
        },
    }
}

/// Every event of the list was published under the identity `me`.
pub open spec fn all_from(events: Seq<EventModel>, me: Seq<char>) -> bool {
    forall|k: int| 0 <= k < events.len() ==> #[trigger] events[k].sender() == me
}

/// A step with no effect that drops the connection.
pub open spec fn is_bare_close(r: Step) -> bool {
    r.replies@.len() == 0 && r.events@.len() == 0 && r.next is Close
}

/// A step whose only effect is one event.
pub open spec fn publishes_only(r: Step, e: EventModel) -> bool {
    r.replies@.len() == 0 && events_model(r.events@) == seq![e] && r.next is Continue
}

/// A step whose only effect is one response.
pub open spec fn replies_only(r: Step, reply: ReplyModel) -> bool {
    replies_model(r.replies@) == seq![reply] && r.events@.len() == 0 && r.next is Continue
}

/// A step that answers with the new room list and announces it on the bus.
pub open spec fn rooms_changed(r: Step, me: Seq<char>, rooms: Seq<RoomModel>) -> bool {
    replies_model(r.replies@) == seq![ReplyModel::UpdateRooms { rooms }] && events_model(r.events@)
        == seq![EventModel::UpdateRoom { from: me }] && r.next is Continue
}

/// The step that ends a session after its connection is gone.
pub open spec fn is_disconnect(r: Step, me: Seq<char>) -> bool {
    r.replies@.len() == 0 && events_model(r.events@) == seq![EventModel::UpdateAll { from: me }]
        && r.next is Close
}

/// A step with nothing in it yet.
fn step(next: Next) -> (r: Step)
    ensures
        r.replies@.len() == 0,
        r.events@.len() == 0,
        r.next == next,
{
    Step { replies: Vec::new(), events: Vec::new(), next }
}

impl State {
    /// Handles the first input of a connection. Only an introduction is
    /// accepted: it sets the session's identity, adds it to the presence list,
    /// publishes a presence change, and answers with both registries. Anything
    /// else closes the connection without any effect.
    pub fn introduce(&mut self, clients: &mut Vec<String>, rooms: &Vec<Room>, inbound: Inbound) -> (r:
        Step)
        ensures
            all_from(events_model(r.events@), final(self).name@),
            match inbound {
                Inbound::Request(Request::Introduce { name }) => {
                    &&& final(self).name@ == name@
                    &&& names(final(clients)@) == names(old(clients)@).push(name@)
                    &&& replies_model(r.replies@) == seq![
                        ReplyModel::UpdateAll {
                            clients: names(final(clients)@),
                            rooms: rooms_model(rooms@),
                        },
                    ]
                    &&& events_model(r.events@) == seq![EventModel::Update { from: name@ }]
                    &&& r.next is Continue
                },
                _ => {
                    &&& final(self).name@ == old(self).name@
                    &&& names(final(clients)@) == names(old(clients)@)
                    &&& is_bare_close(r)
                },
            },
    {
        match inbound {
            Inbound::Request(Request::Introduce { name }) => {
                self.name = name;
                let ghost before = clients@;
                clients.push(self.name.clone());
                assert(names(clients@) =~= names(before).push(self.name@));
                let mut r = step(Next::Continue);
                r.replies.push(
                    Response::UpdateAll { clients: copy_names(clients), rooms: copy_rooms(rooms) },
                );
                r.events.push(Message::Update { from: self.name.clone() });
                assert(replies_model(r.replies@) =~= seq![
                    ReplyModel::UpdateAll { clients: names(clients@), rooms: rooms_model(rooms@) },
                ]);
                assert(events_model(r.events@) =~= seq![EventModel::Update { from: self.name@ }]);
                r
            },
            _ => step(Next::Close),
        }
    }
    /// Takes this session's identity out of both registries once its
    /// connection is gone: out of the presence list, out of every guest list,
    /// and its own room removed. Remaining sessions are told to refresh.
    pub fn disconnect(&self, clients: &mut Vec<String>, rooms: &mut Vec<Room>) -> (r: Step)
        ensures
            names(final(clients)@) == absent(names(old(clients)@), self.name@),
            rooms_model(final(rooms)@) == deleted(left(rooms_model(old(rooms)@), self.name@), self.name@),
            is_disconnect(r, self.name@),
    {
        self.remove_client(clients);
        self.leave_room(rooms);
        if self.has_own_room(rooms) {
            self.delete_room(rooms);
        } else {
            proof {
                lemma_filter_all(rooms_model(rooms@), |m: RoomModel| m.owner != self.name@);
            }
        }
        let mut r = step(Next::Close);
        r.events.push(Message::UpdateAll { from: self.name.clone() });
        assert(events_model(r.events@) =~= seq![EventModel::UpdateAll { from: self.name@ }]);
        r
    }

    /// Handles one read of the connection of an introduced session.
    ///
    /// End of stream and read failures disconnect the session. A malformed
    /// payload or a second introduction closes the connection. Messages are
    /// published under the session's own identity, whatever the request
    /// claims. Creating a room for an owner that has one, joining one's own
    /// room, and joining a room twice are answered with a warning and change
    /// nothing. A file header asks for its body to be read next.
    pub fn on_socket_read(&self, clients: &mut Vec<String>, rooms: &mut Vec<Room>, inbound: Inbound) -> (r:
        Step)
        ensures
            all_from(events_model(r.events@), self.name@),
            match inbound {
                Inbound::Closed | Inbound::Failed => {
                    &&& names(final(clients)@) == absent(names(old(clients)@), self.name@)
                    &&& rooms_model(final(rooms)@) == deleted(
                        left(rooms_model(old(rooms)@), self.name@),
                        self.name@,
                    )
                    &&& is_disconnect(r, self.name@)
                },
                Inbound::Malformed => {
                    &&& *final(clients) == *old(clients)
                    &&& *final(rooms) == *old(rooms)
                    &&& is_bare_close(r)
                },
                Inbound::Request(Request::Introduce { .. }) => {
                    &&& *final(clients) == *old(clients)
                    &&& *final(rooms) == *old(rooms)
                    &&& is_bare_close(r)
                },
                Inbound::Request(Request::DirectMessage { to, message, .. }) => {
                    &&& *final(clients) == *old(clients)
                    &&& *final(rooms) == *old(rooms)
                    &&& publishes_only(
                        r,
                        EventModel::DirectMessage { from: self.name@, to: to@, message: message@ },
                    )
                },
                Inbound::Request(Request::CreateRoom { owner, name }) => {
                    &&& *final(clients) == *old(clients)
                    &&& if has_room(rooms_model(old(rooms)@), owner@) {
                        &&& rooms_model(final(rooms)@) == rooms_model(old(rooms)@)
                        &&& replies_only(r, ReplyModel::Warning { message: "Room already exist!!"@ })
                    } else {
                        &&& rooms_model(final(rooms)@) == created(
                            rooms_model(old(rooms)@),
                            owner@,
                            name@,
                        )
                        &&& rooms_changed(r, self.name@, rooms_model(final(rooms)@))
                    }
                },
                Inbound::Request(Request::JoinRoom { room }) => {
                    &&& *final(clients) == *old(clients)
                    &&& if room@ == self.name@ {
                        &&& *final(rooms) == *old(rooms)
                        &&& replies_only(r, ReplyModel::Warning { message: "You own that room"@ })
                    } else if guest_of(rooms_model(old(rooms)@), room@, self.name@) {
                        &&& *final(rooms) == *old(rooms)
                        &&& replies_only(
                            r,
                            ReplyModel::Warning { message: " You are already in that room"@ },
                        )
                    } else {
                        &&& rooms_model(final(rooms)@) == joined(
                            rooms_model(old(rooms)@),
                            room@,
                            self.name@,
                        )
                        &&& rooms_changed(r, self.name@, rooms_model(final(rooms)@))
                    }
                },
                Inbound::Request(Request::RoomMessage { room, message, .. }) => {
                    &&& *final(clients) == *old(clients)
                    &&& *final(rooms) == *old(rooms)
                    &&& publishes_only(
                        r,
                        EventModel::RoomMessage { from: self.name@, room: room@, message: message@ },
                    )
                },
                Inbound::Request(Request::SendFile { room, filename, size, .. }) => {
                    &&& *final(clients) == *old(clients)
                    &&& *final(rooms) == *old(rooms)
                    &&& r.replies@.len() == 0
                    &&& r.events@.len() == 0
                    &&& r.next is ReadFile
                    &&& r.next->room@ == room@
                    &&& r.next->filename@ == filename@
                    &&& r.next->size == size
                },
            },
    {
        match inbound {
            Inbound::Closed | Inbound::Failed => self.disconnect(clients, rooms),
            Inbound::Malformed => step(Next::Close),
            Inbound::Request(request) => match request {
                Request::Introduce { .. } => step(Next::Close),
                Request::DirectMessage { to, message, .. } => {
                    self.publish(Message::DirectMessage { from: self.name.clone(), to, message })
                },
                Request::CreateRoom { owner, name } => {
                    match self.add_room(rooms, owner, name) {
                        Ok(()) => self.announce_rooms(rooms),
                        Err(RoomError::RoomExists) => self.warn("Room already exist!!".to_owned()),
                    }
                },
                Request::JoinRoom { room } => {
                    if self.name == room {
                        self.warn("You own that room".to_owned())
                    } else if self.is_in_room(rooms, &room) {
                        self.warn(" You are already in that room".to_owned())
                    } else {
                        self.join_room(rooms, &room);
                        self.announce_rooms(rooms)
                    }
                },
                Request::RoomMessage { room, message, .. } => {
                    self.publish(Message::RoomMessage { from: self.name.clone(), room, message })
                },
                Request::SendFile { room, filename, size, .. } => {
                    step(Next::ReadFile { room, filename, size })
                },
            },
        }
    }

    /// Handles the body of a file request: the bytes read after a header
    /// that announced `size` bytes, or `None` if the read failed. The transfer
    /// is published only when exactly `size` bytes arrived; otherwise the
    /// connection is treated as failed and the session disconnects.
    pub fn on_file_read(
        &self,
        clients: &mut Vec<String>,
        rooms: &mut Vec<Room>,
        room: String,
        filename: String,
        size: usize,
        body: Option<Vec<u8>>,
    ) -> (r: Step)
        ensures
            all_from(events_model(r.events@), self.name@),
            (body is Some && body->0@.len() == size) ==> {
                &&& *final(clients) == *old(clients)
                &&& *final(rooms) == *old(rooms)
                &&& publishes_only(
                    r,
                    EventModel::SendFile {
                        from: self.name@,
                        room: room@,
                        filename: filename@,
                        data: body->0@,
                    },
                )
            },
            !(body is Some && body->0@.len() == size) ==> {
                &&& names(final(clients)@) == absent(names(old(clients)@), self.name@)
                &&& rooms_model(final(rooms)@) == deleted(
                    left(rooms_model(old(rooms)@), self.name@),
                    self.name@,
                )
                &&& is_disconnect(r, self.name@)
            },
    {
        match body {
            Some(data) => {
                if data.len() == size {
                    self.publish(Message::SendFile { from: self.name.clone(), room, filename, data })
                } else {
                    self.disconnect(clients, rooms)
                }
            },
            None => self.disconnect(clients, rooms),
        }
    }

    /// A step that publishes `m` and nothing else.
    fn publish(&self, m: Message) -> (r: Step)
        ensures
            publishes_only(r, m@),
    {
        let mut r = step(Next::Continue);
        r.events.push(m);
        assert(events_model(r.events@) =~= seq![m@]);
        r
    }

    /// A step that answers with a warning and nothing else.
    fn warn(&self, message: String) -> (r: Step)
        ensures
            replies_only(r, ReplyModel::Warning { message: message@ }),
    {
        let mut r = step(Next::Continue);
        r.replies.push(Response::Warning { message });
        assert(replies_model(r.replies@) =~= seq![ReplyModel::Warning { message: message@ }]);
        r
    }

    /// A step that answers with the room list and tells the others it changed.
    fn announce_rooms(&self, rooms: &Vec<Room>) -> (r: Step)
        ensures
            rooms_changed(r, self.name@, rooms_model(rooms@)),
    {
        let mut r = step(Next::Continue);
        r.replies.push(Response::UpdateRooms { rooms: copy_rooms(rooms) });
        r.events.push(Message::UpdateRoom { from: self.name.clone() });
        assert(replies_model(r.replies@) =~= seq![ReplyModel::UpdateRooms { rooms: rooms_model(rooms@) }]);
        assert(events_model(r.events@) =~= seq![EventModel::UpdateRoom { from: self.name@ }]);
        r
    }
    /// Handles one receive on the session's bus subscription. An event is
    /// rendered against snapshots of the registries taken now, and written
    /// only if this session is one of its addressees; a file transfer is
    /// followed by its bytes. A lag is answered with a full refresh, since
    /// updates were missed. A closed bus ends the session.
    pub fn on_received(&self, clients: &Vec<String>, rooms: &Vec<Room>, received: Received) -> (r:
        Delivery)
        ensures
            match received {
                Received::Event(m) => if delivered_to(self.name@, rooms_model(rooms@), m@) {
                    if m is SendFile {
                        &&& r is File
                        &&& r->File_0@ == rendered(m@, names(clients@), rooms_model(rooms@))
                        &&& r->File_1@ == m->data@
                    } else {
                        &&& r is Reply
                        &&& r->Reply_0@ == rendered(m@, names(clients@), rooms_model(rooms@))
                    }
                } else {
                    r is Skip
                },
                Received::Lagged(_) => {
                    &&& r is Reply
                    &&& r->Reply_0@ == ReplyModel::UpdateAll {
                        clients: names(clients@),
                        rooms: rooms_model(rooms@),
                    }
                },
                Received::Closed => r is Stop,
            },
    {
        match received {
            Received::Event(m) => match m {
                Message::Update { from } => {
                    if from != self.name {
                        Delivery::Reply(Response::Update { clients: copy_names(clients) })
                    } else {
                        Delivery::Skip
                    }
                },
                Message::UpdateRoom { from } => {
                    if from != self.name {
                        Delivery::Reply(Response::UpdateRooms { rooms: copy_rooms(rooms) })
                    } else {
                        Delivery::Skip
                    }
                },
                Message::UpdateAll { from } => {
                    if from != self.name {
                        Delivery::Reply(
                            Response::UpdateAll {
                                clients: copy_names(clients),
                                rooms: copy_rooms(rooms),
                            },
                        )
                    } else {
                        Delivery::Skip
                    }
                },
                Message::DirectMessage { from, to, message } => {
                    if from != self.name && to == self.name {
                        Delivery::Reply(Response::DirectMessage { from, message })
                    } else {
                        Delivery::Skip
                    }
                },
                Message::RoomMessage { from, room, message } => {
                    if from != self.name && (room == self.name || self.is_in_room(rooms, &room)) {
                        Delivery::Reply(Response::RoomMessage { from, room, message })
                    } else {
                        Delivery::Skip
                    }
                },
                Message::SendFile { from, room, filename, data } => {
                    if from != self.name && (room == self.name || self.is_in_room(rooms, &room)) {
                        let size = data.len();
                        Delivery::File(Response::SendFile { from, room, filename, size }, data)
                    } else {
                        Delivery::Skip
                    }
                },
            },
            Received::Lagged(_) => Delivery::Reply(
                Response::UpdateAll { clients: copy_names(clients), rooms: copy_rooms(rooms) },
            ),
            Received::Closed => Delivery::Stop,
        }
    }
}

} // verus!