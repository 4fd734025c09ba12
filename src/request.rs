use vstd::prelude::*;

verus! {

/// A request that a client sends over its connection, once decoded.
///
/// `SendFile` is the header of a two-part request: exactly `size` raw bytes
/// follow it on the same stream. The `from` fields are what the client
/// claims; the server stamps events with the session's own identity instead.
#[derive(Debug)]
pub enum Request {
    Introduce { name: String },
    CreateRoom { owner: String, name: String },
    JoinRoom { room: String },
    DirectMessage { from: String, to: String, message: String },
    RoomMessage { from: String, room: String, message: String },
    SendFile { from: String, room: String, filename: String, size: usize },
}

} // verus!
