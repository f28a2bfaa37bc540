//! The values exchanged over the chat WebSockets and the users they concern.
use vstd::prelude::*;

verus! {

/// An instant in UTC: seconds since the Unix epoch and the nanoseconds within
/// that second.
#[derive(Debug, Clone, Copy, PartialEq, Eq, Structural)]
pub struct Timestamp {
    pub secs: i64,
    pub nanos: u32,
}

/// The user a connection was authenticated as.
#[derive(Debug, Clone)]
pub struct AuthUser {
    pub id: u64,
    pub username: String,
    pub college_id: u8,
}

/// A user listening on a channel.
#[derive(Debug, Clone)]
pub struct ConnectedUser {
    pub user_id: u64,
    pub username: String,
    pub channel_type: String,
    pub channel_id: u64,
}

/// One stored message as it is replayed to a user who joins a channel.
#[derive(Debug, Clone)]
pub struct HistoryMessage {
    pub id: u64,
    pub user_id: u64,
    pub username: String,
    pub body: String,
    pub created_at: Timestamp,
    pub is_deleted: bool,
}

/// One row of a history query: id, author id, author name, body and time of
/// a message that is not deleted.
#[derive(Debug, Clone)]
pub struct HistoryRow {
    pub id: u64,
    pub user_id: u64,
    pub username: String,
    pub body: String,
    pub created_at: Timestamp,
}

/// A message of the chat protocol, in either direction.
#[derive(Debug, Clone)]
pub enum WsMessage {
    /// The client asks to join a channel as `user_id`.
    Connect { user_id: u64, username: String, channel_type: String, channel_id: u64 },
    /// The client posts `body` to a channel.
    Message { body: String, channel_type: String, channel_id: u64, client_nonce: Option<String> },
    /// Keep-alive from the client.
    Ping,
    /// The server confirms a join.
    Connected { user_id: u64, message: String },
    /// The server announces a posted message to a channel.
    NewMessage {
        id: u64,
        user_id: u64,
        username: String,
        body: String,
        channel_type: String,
        channel_id: u64,
        created_at: Timestamp,
        is_deleted: bool,
    },
    /// The server replays the recent messages of a channel.
    History { messages: Vec<HistoryMessage> },
    /// The server reports a failed request.
    Error { message: String },
}

} // verus!
