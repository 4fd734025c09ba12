use vstd::prelude::*;

verus! {

/// A domain event carried on the event bus from one session to all of them.
/// Every event names the identity of the session that published it.
#[derive(Debug, Clone)]
pub enum Message {
    Update { from: String },
    UpdateRoom { from: String },
    UpdateAll { from: String },
    DirectMessage { from: String, to: String, message: String },
    RoomMessage { from: String, room: String, message: String },
    SendFile { from: String, room: String, filename: String, data: Vec<u8> },
}

/// The mathematical model of a domain event.
pub enum EventModel {
    Update { from: Seq<char> },
    UpdateRoom { from: Seq<char> },
    UpdateAll { from: Seq<char> },
    DirectMessage { from: Seq<char>, to: Seq<char>, message: Seq<char> },
    RoomMessage { from: Seq<char>, room: Seq<char>, message: Seq<char> },
    SendFile { from: Seq<char>, room: Seq<char>, filename: Seq<char>, data: Seq<u8> },
}

impl EventModel {
    /// The identity that published the event.
    pub open spec fn sender(self) -> Seq<char> {
        match self {
            EventModel::Update { from } => from,
            EventModel::UpdateRoom { from } => from,
            EventModel::UpdateAll { from } => from,
            EventModel::DirectMessage { from, .. } => from,
            EventModel::RoomMessage { from, .. } => from,
            EventModel::SendFile { from, .. } => from,
        }
    }
}

impl View for Message {
    type V = EventModel;

    open spec fn view(&self) -> EventModel {
        match self {
            Message::Update { from } => EventModel::Update { from: from@ },
            Message::UpdateRoom { from } => EventModel::UpdateRoom { from: from@ },
            Message::UpdateAll { from } => EventModel::UpdateAll { from: from@ },
            Message::DirectMessage { from, to, message } => EventModel::DirectMessage {
                from: from@,
                to: to@,
                message: message@,
            },
            Message::RoomMessage { from, room, message } => EventModel::RoomMessage {
                from: from@,
                room: room@,
                message: message@,
            },
            Message::SendFile { from, room, filename, data } => EventModel::SendFile {
                from: from@,
                room: room@,
                filename: filename@,
                data: data@,
            },
        }
    }
}

/// The models of a list of events.
pub open spec fn events_model(v: Seq<Message>) -> Seq<EventModel> {
    v.map_values(|m: Message| m@)
}

} // verus!
