use vstd::prelude::*;
use crate::room::{Room, RoomModel, names, rooms_model};

verus! {

/// A response that the server writes to one client's connection.
/// `SendFile` is followed on the stream by exactly `size` raw bytes.
pub enum Response {
    Update { clients: Vec<String> },
    UpdateRooms { rooms: Vec<Room> },
    UpdateAll { clients: Vec<String>, rooms: Vec<Room> },
    Warning { message: String },
    DirectMessage { from: String, message: String },
    RoomMessage { from: String, room: String, message: String },
    SendFile { from: String, room: String, filename: String, size: usize },
}

/// The mathematical model of a response.
pub enum ReplyModel {
    Update { clients: Seq<Seq<char>> },
    UpdateRooms { rooms: Seq<RoomModel> },
    UpdateAll { clients: Seq<Seq<char>>, rooms: Seq<RoomModel> },
    Warning { message: Seq<char> },
    DirectMessage { from: Seq<char>, message: Seq<char> },
    RoomMessage { from: Seq<char>, room: Seq<char>, message: Seq<char> },
    SendFile { from: Seq<char>, room: Seq<char>, filename: Seq<char>, size: nat },
}

impl View for Response {
    type V = ReplyModel;

    open spec fn view(&self) -> ReplyModel {
        match self {
            Response::Update { clients } => ReplyModel::Update { clients: names(clients@) },
            Response::UpdateRooms { rooms } => ReplyModel::UpdateRooms { rooms: rooms_model(rooms@) },
            Response::UpdateAll { clients, rooms } => ReplyModel::UpdateAll {
                clients: names(clients@),
                rooms: rooms_model(rooms@),
            },
            Response::Warning { message } => ReplyModel::Warning { message: message@ },
            Response::DirectMessage { from, message } => ReplyModel::DirectMessage {
                from: from@,
                message: message@,
            },
            Response::RoomMessage { from, room, message } => ReplyModel::RoomMessage {
                from: from@,
                room: room@,
                message: message@,
            },
            Response::SendFile { from, room, filename, size } => ReplyModel::SendFile {
                from: from@,
                room: room@,
                filename: filename@,
                size: *size as nat,
            },
        }
    }
}

/// The models of a list of responses.
pub open spec fn replies_model(v: Seq<Response>) -> Seq<ReplyModel> {
    v.map_values(|r: Response| r@)
}

} // verus!
