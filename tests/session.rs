use chat_server::message::Message;
use chat_server::request::Request;
use chat_server::response::Response;
use chat_server::room::Room;
use chat_server::session::{Delivery, Inbound, Next, Received, Step};
use chat_server::state::{RoomError, State};

fn s(x: &str) -> String {
    x.to_string()
}

fn connect(name: &str, clients: &mut Vec<String>, rooms: &Vec<Room>) -> State {
    let mut st = State::new();
    let step = st.introduce(clients, rooms, Inbound::Request(Request::Introduce { name: s(name) }));
    assert!(matches!(step.next, Next::Continue));
    st
}

fn send(st: &State, clients: &mut Vec<String>, rooms: &mut Vec<Room>, req: Request) -> Step {
    st.on_socket_read(clients, rooms, Inbound::Request(req))
}

fn deliver(st: &State, clients: &Vec<String>, rooms: &Vec<Room>, m: Message) -> Delivery {
    st.on_received(clients, rooms, Received::Event(m))
}

fn clone_message(m: &Message) -> Message {
    match m {
        Message::Update { from } => Message::Update { from: from.clone() },
        Message::UpdateRoom { from } => Message::UpdateRoom { from: from.clone() },
        Message::UpdateAll { from } => Message::UpdateAll { from: from.clone() },
        Message::DirectMessage { from, to, message } => Message::DirectMessage {
            from: from.clone(),
            to: to.clone(),
            message: message.clone(),
        },
        Message::RoomMessage { from, room, message } => Message::RoomMessage {
            from: from.clone(),
            room: room.clone(),
            message: message.clone(),
        },
        Message::SendFile { from, room, filename, data } => Message::SendFile {
            from: from.clone(),
            room: room.clone(),
            filename: filename.clone(),
            data: data.clone(),
        },
    }
}

#[test]
fn introduce_registers_and_answers() {
    let mut clients = vec![s("zed")];
    let rooms: Vec<Room> = Vec::new();
    let mut st = State::new();
    assert_eq!(st.name, "");
    let step = st.introduce(&mut clients, &rooms, Inbound::Request(Request::Introduce { name: s("ann") }));
    assert_eq!(st.name, "ann");
    assert_eq!(clients, vec![s("zed"), s("ann")]);
    assert_eq!(step.replies.len(), 1);
    match &step.replies[0] {
        Response::UpdateAll { clients: c, rooms: r } => {
            assert_eq!(*c, vec![s("zed"), s("ann")]);
            assert!(r.is_empty());
        }
        _ => panic!("expected a full refresh"),
    }
    assert_eq!(step.events.len(), 1);
    assert!(matches!(&step.events[0], Message::Update { from } if from == "ann"));
}

#[test]
fn handshake_rejects_other_requests() {
    let mut clients: Vec<String> = Vec::new();
    let rooms: Vec<Room> = Vec::new();
    let mut st = State::new();
    let step = st.introduce(&mut clients, &rooms, Inbound::Request(Request::JoinRoom { room: s("x") }));
    assert!(matches!(step.next, Next::Close));
    assert!(step.replies.is_empty() && step.events.is_empty());
    for inbound in [Inbound::Closed, Inbound::Failed, Inbound::Malformed] {
        let step = st.introduce(&mut clients, &rooms, inbound);
        assert!(matches!(step.next, Next::Close));
        assert!(step.events.is_empty());
    }
    assert!(clients.is_empty());
    assert_eq!(st.name, "");
}

#[test]
fn room_message_reaches_guest_not_sender() {
    let mut clients: Vec<String> = Vec::new();
    let mut rooms: Vec<Room> = Vec::new();
    let a = connect("A", &mut clients, &rooms);
    let b = connect("B", &mut clients, &rooms);
    let step = send(&a, &mut clients, &mut rooms, Request::CreateRoom { owner: s("A"), name: s("lobby") });
    assert!(matches!(step.next, Next::Continue));
    let step = send(&b, &mut clients, &mut rooms, Request::JoinRoom { room: s("A") });
    assert!(matches!(&step.replies[0], Response::UpdateRooms { .. }));
    let step = send(
        &a,
        &mut clients,
        &mut rooms,
        Request::RoomMessage { from: s("A"), room: s("A"), message: s("hi") },
    );
    assert!(step.replies.is_empty());
    assert_eq!(step.events.len(), 1);
    let event = clone_message(&step.events[0]);
    match deliver(&b, &clients, &rooms, clone_message(&event)) {
        Delivery::Reply(Response::RoomMessage { from, room, message }) => {
            assert_eq!(from, "A");
            assert_eq!(room, "A");
            assert_eq!(message, "hi");
        }
        _ => panic!("B should receive the room message"),
    }
    assert!(matches!(deliver(&a, &clients, &rooms, event), Delivery::Skip));
}

#[test]
fn second_create_room_warns() {
    let mut clients: Vec<String> = Vec::new();
    let mut rooms: Vec<Room> = Vec::new();
    let a = connect("A", &mut clients, &rooms);
    send(&a, &mut clients, &mut rooms, Request::CreateRoom { owner: s("A"), name: s("lobby") });
    let step = send(&a, &mut clients, &mut rooms, Request::CreateRoom { owner: s("A"), name: s("other") });
    match &step.replies[..] {
        [Response::Warning { message }] => assert_eq!(message, "Room already exist!!"),
        _ => panic!("expected a warning"),
    }
    assert!(step.events.is_empty());
    assert_eq!(rooms.len(), 1);
    assert_eq!(rooms[0].owner, "A");
    assert_eq!(rooms[0].name, "lobby");
}

#[test]
fn duplicate_identity_is_accepted() {
    let mut clients: Vec<String> = Vec::new();
    let rooms: Vec<Room> = Vec::new();
    let a = connect("carol", &mut clients, &rooms);
    let b = connect("carol", &mut clients, &rooms);
    assert_eq!(a.name, b.name);
    assert_eq!(clients, vec![s("carol"), s("carol")]);
}

#[test]
fn create_room_publishes_room_change() {
    let mut clients: Vec<String> = Vec::new();
    let mut rooms: Vec<Room> = Vec::new();
    let a = connect("A", &mut clients, &rooms);
    let step = send(&a, &mut clients, &mut rooms, Request::CreateRoom { owner: s("A"), name: s("lobby") });
    match &step.replies[..] {
        [Response::UpdateRooms { rooms: r }] => {
            assert_eq!(r.len(), 1);
            assert_eq!(r[0].owner, "A");
            assert!(r[0].guests.is_empty());
        }
        _ => panic!("expected the room list"),
    }
    assert!(matches!(&step.events[..], [Message::UpdateRoom { from }] if from == "A"));
}

#[test]
fn add_room_reports_existing_owner() {
    let st = State { name: s("A") };
    let mut rooms: Vec<Room> = Vec::new();
    assert!(st.add_room(&mut rooms, s("A"), s("one")).is_ok());
    assert!(matches!(st.add_room(&mut rooms, s("A"), s("two")), Err(RoomError::RoomExists)));
    assert!(st.add_room(&mut rooms, s("B"), s("three")).is_ok());
    assert_eq!(rooms.len(), 2);
    assert!(st.is_room_exist(&rooms, &s("B")));
    assert!(!st.is_room_exist(&rooms, &s("C")));
    assert!(st.has_own_room(&rooms));
}

#[test]
fn join_own_room_warns() {
    let mut clients: Vec<String> = Vec::new();
    let mut rooms: Vec<Room> = Vec::new();
    let a = connect("A", &mut clients, &rooms);
    send(&a, &mut clients, &mut rooms, Request::CreateRoom { owner: s("A"), name: s("lobby") });
    let step = send(&a, &mut clients, &mut rooms, Request::JoinRoom { room: s("A") });
    match &step.replies[..] {
        [Response::Warning { message }] => assert_eq!(message, "You own that room"),
        _ => panic!("expected a warning"),
    }
    assert!(rooms[0].guests.is_empty());
}

#[test]
fn join_twice_warns_and_keeps_guests() {
    let mut clients: Vec<String> = Vec::new();
    let mut rooms: Vec<Room> = Vec::new();
    let a = connect("A", &mut clients, &rooms);
    let b = connect("B", &mut clients, &rooms);
    send(&a, &mut clients, &mut rooms, Request::CreateRoom { owner: s("A"), name: s("lobby") });
    send(&b, &mut clients, &mut rooms, Request::JoinRoom { room: s("A") });
    let step = send(&b, &mut clients, &mut rooms, Request::JoinRoom { room: s("A") });
    match &step.replies[..] {
        [Response::Warning { message }] => assert_eq!(message, " You are already in that room"),
        _ => panic!("expected a warning"),
    }
    assert_eq!(rooms[0].guests, vec![s("B")]);
    assert!(b.is_in_room(&rooms, &s("A")));
    assert!(b.is_in_any_room(&rooms));
    assert!(!a.is_in_any_room(&rooms));
}

#[test]
fn join_room_directly_is_idempotent() {
    let st = State { name: s("B") };
    let mut rooms = vec![Room { owner: s("A"), name: s("lobby"), guests: vec![s("C")] }];
    st.join_room(&mut rooms, &s("A"));
    st.join_room(&mut rooms, &s("A"));
    assert_eq!(rooms[0].guests, vec![s("C"), s("B")]);
    st.join_room(&mut rooms, &s("nobody"));
    assert_eq!(rooms.len(), 1);
    assert_eq!(rooms[0].guests.len(), 2);
}

#[test]
fn leave_room_twice_is_a_no_op() {
    let st = State { name: s("B") };
    let mut rooms = vec![
        Room { owner: s("A"), name: s("a"), guests: vec![s("B"), s("C")] },
        Room { owner: s("C"), name: s("c"), guests: vec![s("B")] },
    ];
    st.leave_room(&mut rooms);
    assert_eq!(rooms[0].guests, vec![s("C")]);
    assert!(rooms[1].guests.is_empty());
    st.leave_room(&mut rooms);
    assert_eq!(rooms[0].guests, vec![s("C")]);
    assert!(rooms[1].guests.is_empty());
    assert_eq!(rooms[0].owner, "A");
    assert_eq!(rooms[1].name, "c");
}

#[test]
fn disconnect_cascades() {
    let mut clients = vec![s("I"), s("J"), s("K")];
    let mut rooms = vec![
        Room { owner: s("I"), name: s("r"), guests: vec![s("J")] },
        Room { owner: s("J"), name: s("r2"), guests: vec![s("I"), s("K")] },
    ];
    let st = State { name: s("I") };
    let step = st.on_socket_read(&mut clients, &mut rooms, Inbound::Closed);
    assert!(matches!(step.next, Next::Close));
    assert!(matches!(&step.events[..], [Message::UpdateAll { from }] if from == "I"));
    assert_eq!(clients, vec![s("J"), s("K")]);
    assert_eq!(rooms.len(), 1);
    assert_eq!(rooms[0].owner, "J");
    assert_eq!(rooms[0].guests, vec![s("K")]);
}

#[test]
fn read_failure_also_disconnects() {
    let mut clients = vec![s("I")];
    let mut rooms = vec![Room { owner: s("I"), name: s("r"), guests: Vec::new() }];
    let st = State { name: s("I") };
    let step = st.on_socket_read(&mut clients, &mut rooms, Inbound::Failed);
    assert!(matches!(step.next, Next::Close));
    assert!(clients.is_empty());
    assert!(rooms.is_empty());
}

#[test]
fn second_introduce_and_garbage_close() {
    let mut clients = vec![s("A")];
    let mut rooms: Vec<Room> = Vec::new();
    let st = State { name: s("A") };
    let step = send(&st, &mut clients, &mut rooms, Request::Introduce { name: s("B") });
    assert!(matches!(step.next, Next::Close));
    assert!(step.events.is_empty());
    let step = st.on_socket_read(&mut clients, &mut rooms, Inbound::Malformed);
    assert!(matches!(step.next, Next::Close));
    assert_eq!(clients, vec![s("A")]);
}

#[test]
fn messages_carry_session_identity() {
    let mut clients = vec![s("A")];
    let mut rooms: Vec<Room> = Vec::new();
    let st = State { name: s("A") };
    let step = send(
        &st,
        &mut clients,
        &mut rooms,
        Request::DirectMessage { from: s("forged"), to: s("B"), message: s("yo") },
    );
    match &step.events[..] {
        [Message::DirectMessage { from, to, message }] => {
            assert_eq!(from, "A");
            assert_eq!(to, "B");
            assert_eq!(message, "yo");
        }
        _ => panic!("expected a direct message"),
    }
    let step = send(
        &st,
        &mut clients,
        &mut rooms,
        Request::RoomMessage { from: s("forged"), room: s("R"), message: s("m") },
    );
    assert!(matches!(&step.events[..], [Message::RoomMessage { from, .. }] if from == "A"));
}

#[test]
fn direct_message_addressing() {
    let clients: Vec<String> = Vec::new();
    let rooms: Vec<Room> = Vec::new();
    let b = State { name: s("B") };
    let c = State { name: s("C") };
    let m = Message::DirectMessage { from: s("A"), to: s("B"), message: s("psst") };
    match deliver(&b, &clients, &rooms, clone_message(&m)) {
        Delivery::Reply(Response::DirectMessage { from, message }) => {
            assert_eq!(from, "A");
            assert_eq!(message, "psst");
        }
        _ => panic!("B is the addressee"),
    }
    assert!(matches!(deliver(&c, &clients, &rooms, m), Delivery::Skip));
    let to_self = Message::DirectMessage { from: s("B"), to: s("B"), message: s("x") };
    assert!(matches!(deliver(&b, &clients, &rooms, to_self), Delivery::Skip));
}

#[test]
fn room_message_skips_outsiders() {
    let clients: Vec<String> = Vec::new();
    let rooms = vec![Room { owner: s("A"), name: s("lobby"), guests: vec![s("B")] }];
    let m = Message::RoomMessage { from: s("B"), room: s("A"), message: s("hey") };
    let owner = State { name: s("A") };
    let outsider = State { name: s("C") };
    assert!(matches!(deliver(&owner, &clients, &rooms, clone_message(&m)), Delivery::Reply(_)));
    assert!(matches!(deliver(&outsider, &clients, &rooms, clone_message(&m)), Delivery::Skip));
    let sender = State { name: s("B") };
    assert!(matches!(deliver(&sender, &clients, &rooms, m), Delivery::Skip));
}

#[test]
fn refresh_events_skip_their_origin() {
    let clients = vec![s("A"), s("B")];
    let rooms = vec![Room { owner: s("A"), name: s("lobby"), guests: Vec::new() }];
    let a = State { name: s("A") };
    let b = State { name: s("B") };
    for m in [
        Message::Update { from: s("A") },
        Message::UpdateRoom { from: s("A") },
        Message::UpdateAll { from: s("A") },
    ] {
        assert!(matches!(deliver(&a, &clients, &rooms, clone_message(&m)), Delivery::Skip));
        assert!(matches!(deliver(&b, &clients, &rooms, m), Delivery::Reply(_)));
    }
    match deliver(&b, &clients, &rooms, Message::Update { from: s("A") }) {
        Delivery::Reply(Response::Update { clients: c }) => assert_eq!(c, clients),
        _ => panic!("expected the presence list"),
    }
}

#[test]
fn file_transfer_round() {
    let mut clients = vec![s("A"), s("B")];
    let mut rooms = vec![Room { owner: s("A"), name: s("lobby"), guests: vec![s("B")] }];
    let a = State { name: s("A") };
    let step = send(
        &a,
        &mut clients,
        &mut rooms,
        Request::SendFile { from: s("A"), room: s("A"), filename: s("f.txt"), size: 3 },
    );
    let (room, filename, size) = match step.next {
        Next::ReadFile { room, filename, size } => (room, filename, size),
        _ => panic!("expected a file body read"),
    };
    assert_eq!(size, 3);
    let step = a.on_file_read(&mut clients, &mut rooms, room, filename, size, Some(vec![1, 2, 3]));
    assert!(matches!(step.next, Next::Continue));
    let event = clone_message(&step.events[0]);
    let b = State { name: s("B") };
    match deliver(&b, &clients, &rooms, clone_message(&event)) {
        Delivery::File(Response::SendFile { from, room, filename, size }, data) => {
            assert_eq!(from, "A");
            assert_eq!(room, "A");
            assert_eq!(filename, "f.txt");
            assert_eq!(size, 3);
            assert_eq!(data, vec![1, 2, 3]);
        }
        _ => panic!("B should receive the file"),
    }
    assert!(matches!(deliver(&a, &clients, &rooms, event), Delivery::Skip));
}

#[test]
fn short_file_body_aborts() {
    let mut clients = vec![s("A")];
    let mut rooms: Vec<Room> = Vec::new();
    let a = State { name: s("A") };
    let step = a.on_file_read(&mut clients, &mut rooms, s("A"), s("f"), 4, Some(vec![1, 2]));
    assert!(matches!(step.next, Next::Close));
    assert!(!step.events.iter().any(|e| matches!(e, Message::SendFile { .. })));
    assert!(clients.is_empty());
    let mut clients = vec![s("A")];
    let step = a.on_file_read(&mut clients, &mut rooms, s("A"), s("f"), 4, None);
    assert!(matches!(step.next, Next::Close));
    assert!(clients.is_empty());
}

#[test]
fn empty_file_is_exact() {
    let mut clients = vec![s("A")];
    let mut rooms: Vec<Room> = Vec::new();
    let a = State { name: s("A") };
    let step = a.on_file_read(&mut clients, &mut rooms, s("A"), s("empty"), 0, Some(Vec::new()));
    assert!(matches!(step.next, Next::Continue));
    assert!(matches!(&step.events[..], [Message::SendFile { data, .. }] if data.is_empty()));
}

#[test]
fn lag_and_close_of_the_bus() {
    let clients = vec![s("A")];
    let rooms: Vec<Room> = Vec::new();
    let a = State { name: s("A") };
    match a.on_received(&clients, &rooms, Received::Lagged(5)) {
        Delivery::Reply(Response::UpdateAll { clients: c, rooms: r }) => {
            assert_eq!(c, clients);
            assert!(r.is_empty());
        }
        _ => panic!("a lag asks for a full refresh"),
    }
    assert!(matches!(a.on_received(&clients, &rooms, Received::Closed), Delivery::Stop));
}

#[test]
fn remove_client_drops_every_copy() {
    let st = State { name: s("carol") };
    let mut clients = vec![s("carol"), s("dave"), s("carol")];
    st.remove_client(&mut clients);
    assert_eq!(clients, vec![s("dave")]);
    st.remove_client(&mut clients);
    assert_eq!(clients, vec![s("dave")]);
}

#[test]
fn delete_room_keeps_others() {
    let st = State { name: s("A") };
    let mut rooms = vec![
        Room { owner: s("B"), name: s("b"), guests: vec![s("A")] },
        Room { owner: s("A"), name: s("a"), guests: Vec::new() },
    ];
    st.delete_room(&mut rooms);
    assert_eq!(rooms.len(), 1);
    assert_eq!(rooms[0].owner, "B");
    assert_eq!(rooms[0].guests, vec![s("A")]);
    assert!(!st.has_own_room(&rooms));
}
