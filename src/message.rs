use vstd::prelude::*;

verus! {

/// The part of every message that says which account it is about.
#[derive(Clone, Copy, PartialEq, Eq, Structural, Debug)]
pub struct Header {
    pub account_id: i32,
}

/// One entry of a roster snapshot.
#[derive(Debug)]
pub struct EntityEntry {
    pub account_id: i32,
    pub name: String,
    pub x: i32,
    pub y: i32,
}

/// A newly joined peer; its account id is the one in the header.
#[derive(Debug)]
pub struct NewEntity {
    pub name: String,
    pub x: i32,
    pub y: i32,
}

#[derive(Debug)]
pub struct InitialMessage {
    pub entities: Vec<EntityEntry>,
}

#[derive(Debug)]
pub struct ConnectMessage {
    pub entity: NewEntity,
}

#[derive(Clone, Copy, PartialEq, Eq, Structural, Debug)]
pub struct DisconnectMessage {
    pub account_id: i32,
}

#[derive(Clone, Copy, PartialEq, Eq, Structural, Debug)]
pub struct MoveMessage {
    pub account_id: i32,
    pub speed: u32,
    pub x: i32,
    pub y: i32,
}

/// The payload of a message, by kind.
#[derive(Debug)]
pub enum Value {
    /// Full roster snapshot, sent once after connecting.
    Initial(InitialMessage),
    /// A peer joined.
    Connect(ConnectMessage),
    /// A peer left.
    Disconnect(DisconnectMessage),
    /// A position update: head for `(x, y)` at `speed`.
    Move(MoveMessage),
}

/// A message exchanged with the game server.
#[derive(Debug)]
pub struct Message {
    pub header: Header,
    pub value: Value,
}

/// The movement update of account `account_id`, heading for `(x, y)`.
pub open spec fn move_message(account_id: i32, speed: u32, x: i32, y: i32) -> Message {
    Message { header: Header { account_id }, value: Value::Move(MoveMessage { account_id, speed, x, y }) }
}

impl Message {
    /// The movement update that the local player sends after it moved.
    pub fn movement(account_id: i32, speed: u32, x: i32, y: i32) -> (r: Message)
        ensures
            r == move_message(account_id, speed, x, y),
    {
        Message { header: Header { account_id }, value: Value::Move(MoveMessage { account_id, speed, x, y }) }
    }
}

} // verus!
