//! What the chat WebSocket handlers decide for each message a client sends:
//! whom a join registers and on which channel, what a post stores and
//! announces, and what the client is answered.
use vstd::prelude::*;

use crate::error::{AppError, AppResult};
use crate::keys::{
    decimal, dm_channel_key, dm_channel_key_spec, dm_pair, dm_pair_spec, hot_town_channel_key,
    hot_town_channel_key_spec, lemma_dm_channel_key_layout, lemma_hot_town_channel_key_layout,
};
use crate::message::{AuthUser, ConnectedUser, HistoryMessage, HistoryRow, Timestamp, WsMessage};
use crate::text::{body_is_acceptable, body_is_acceptable_exec, trim_body, trimmed};

verus! {

/// Which stored messages a join replays.
#[derive(Debug, Clone, Copy, PartialEq, Eq, Structural)]
pub enum HistoryQuery {
    /// The direct messages between `user1` and `user2`, in either direction.
    Direct { user1: u64, user2: u64 },
    /// The messages of a Hot Town channel.
    Channel { channel_id: u16 },
}

/// The row a post adds to the database.
#[derive(Debug, Clone)]
pub enum StoredMessage {
    /// A direct message from `sender_id` to `receiver_id`.
    Direct { sender_id: u64, receiver_id: u64, body: String, client_nonce: Option<String> },
    /// A message of a Hot Town channel by `user_id`.
    Channel { channel_id: u16, user_id: u64, body: String },
}

/// A join: register `user` on `channel_key`, send `confirmation`, then the
/// history that `history` selects.
#[derive(Debug, Clone)]
pub struct JoinPlan {
    pub channel_key: String,
    pub user: ConnectedUser,
    pub confirmation: WsMessage,
    pub history: HistoryQuery,
}

/// A post: store `record`, then announce it on `channel_key` (see `announce`).
#[derive(Debug, Clone)]
pub struct PostPlan {
    pub channel_key: String,
    pub record: StoredMessage,
    pub user_id: u64,
    pub username: String,
    pub body: String,
    pub channel_type: String,
    pub channel_id: u64,
}

/// What a client message leads to.
#[derive(Debug, Clone)]
pub enum Plan {
    Join(JoinPlan),
    Post(PostPlan),
    Ignore,
}

/// One event of a WebSocket's receiving side.
#[derive(Debug, Clone)]
pub enum Frame {
    /// A text frame, with the protocol message it holds if it parses as one.
    Text(Option<WsMessage>),
    /// A close frame.
    Close,
    /// A binary, ping or pong frame.
    Other,
    /// The stream ended or failed.
    Ended,
}

/// What the receiving loop does with a frame.
#[derive(Debug, Clone)]
pub enum Step {
    Handle(WsMessage),
    Skip,
    Stop,
}

pub open spec fn mismatch_text() -> Seq<char> {
    "User ID mismatch"@
}

pub open spec fn invalid_body_text() -> Seq<char> {
    "Message must be 1-2000 characters"@
}

pub open spec fn hot_town_type_text() -> Seq<char> {
    "hot_town"@
}

/// The error for a join made under another user's id.
pub open spec fn is_mismatch_error(r: AppResult<Plan>) -> bool {
    r matches Err(AppError::Unauthorized(m)) && m@ == mismatch_text()
}

/// The error for a body that is blank or too long.
pub open spec fn is_invalid_body_error(r: AppResult<Plan>) -> bool {
    r matches Err(AppError::Validation(m)) && m@ == invalid_body_text()
}

/// The outcome of a direct-message client message `msg` on a connection of
/// `auth`.
pub open spec fn dm_outcome(auth: AuthUser, msg: WsMessage, r: AppResult<Plan>) -> bool {
    match msg {
        WsMessage::Connect { user_id, username, channel_type, channel_id } => {
            if user_id != auth.id {
                is_mismatch_error(r)
            } else {
                &&& r matches Ok(Plan::Join(j))
                &&& j.channel_key@ == dm_channel_key_spec(user_id, channel_id)
                &&& j.user.user_id == user_id
                &&& j.user.username@ == username@
                &&& j.user.channel_type@ == channel_type@
                &&& j.user.channel_id == channel_id
                &&& j.confirmation matches WsMessage::Connected { user_id: uid, message }
                &&& uid == user_id
                &&& message@ == "Connected to DM"@
                &&& j.history == HistoryQuery::Direct {
                    user1: dm_pair_spec(user_id, channel_id).0,
                    user2: dm_pair_spec(user_id, channel_id).1,
                }
            }
        },
        WsMessage::Message { body, channel_type, channel_id, client_nonce } => {
            if !body_is_acceptable(body@) {
                is_invalid_body_error(r)
            } else {
                &&& r matches Ok(Plan::Post(p))
                &&& p.channel_key@ == dm_channel_key_spec(auth.id, channel_id)
                &&& p.record matches StoredMessage::Direct {
                    sender_id,
                    receiver_id,
                    body: stored,
                    client_nonce: nonce,
                }
                &&& sender_id == auth.id
                &&& receiver_id == channel_id
                &&& stored@ == trimmed(body@)
                &&& nonce == client_nonce
                &&& p.user_id == auth.id
                &&& p.username@ == auth.username@
                &&& p.body@ == body@
                &&& p.channel_type@ == channel_type@
                &&& p.channel_id == channel_id
            }
        },
        _ => r matches Ok(Plan::Ignore),
    }
}

/// The outcome of a client message `msg` on a connection of `auth` to Hot
/// Town channel `channel_id`.
pub open spec fn hot_town_outcome(
    auth: AuthUser,
    channel_id: u16,
    msg: WsMessage,
    r: AppResult<Plan>,
) -> bool {
    match msg {
        WsMessage::Connect { user_id, username, .. } => {
            if user_id != auth.id {
                is_mismatch_error(r)
            } else {
                &&& r matches Ok(Plan::Join(j))
                &&& j.channel_key@ == hot_town_channel_key_spec(channel_id)
                &&& j.user.user_id == user_id
                &&& j.user.username@ == username@
                &&& j.user.channel_type@ == hot_town_type_text()
                &&& j.user.channel_id == channel_id as u64
                &&& j.confirmation matches WsMessage::Connected { user_id: uid, message }
                &&& uid == user_id
                &&& message@ == "Connected to Hot Town"@
                &&& j.history == HistoryQuery::Channel { channel_id }
            }
        },
        WsMessage::Message { body, .. } => {
            if !body_is_acceptable(body@) {
                is_invalid_body_error(r)
            } else {
                &&& r matches Ok(Plan::Post(p))
                &&& p.channel_key@ == hot_town_channel_key_spec(channel_id)
                &&& p.record matches StoredMessage::Channel {
                    channel_id: cid,
                    user_id,
                    body: stored,
                }
                &&& cid == channel_id
                &&& user_id == auth.id
                &&& stored@ == trimmed(body@)
                &&& p.user_id == auth.id
                &&& p.username@ == auth.username@
                &&& p.body@ == body@
                &&& p.channel_type@ == hot_town_type_text()
                &&& p.channel_id == channel_id as u64
            }
        },
        _ => r matches Ok(Plan::Ignore),
    }
}

fn mismatch_error() -> (e: AppError)
    ensures
        e matches AppError::Unauthorized(m) && m@ == mismatch_text(),
{
    AppError::Unauthorized("User ID mismatch".to_owned())
}

fn invalid_body_error() -> (e: AppError)
    ensures
        e matches AppError::Validation(m) && m@ == invalid_body_text(),
{
    AppError::Validation("Message must be 1-2000 characters".to_owned())
}

/// Decides a client message of a direct-message connection of `auth`.
///
/// A join is refused unless made under the authenticated user's id; it joins
/// the conversation with user `channel_id`. A post is refused when its body is
/// blank or longer than 2000 bytes; otherwise it is stored, trimmed, as a
/// message from the authenticated user to user `channel_id` and announced on
/// their conversation. Every other message is ignored.
pub fn plan_dm_message(auth: &AuthUser, msg: WsMessage) -> (r: AppResult<Plan>)
    ensures
        dm_outcome(*auth, msg, r),
{
    match msg {
        WsMessage::Connect { user_id, username, channel_type, channel_id } => {
            if user_id != auth.id {
                return Err(mismatch_error());
            }
            let (user1, user2) = dm_pair(user_id, channel_id);
            let channel_key = dm_channel_key(user_id, channel_id);
            let user = ConnectedUser { user_id, username, channel_type, channel_id };
            let confirmation = WsMessage::Connected {
                user_id,
                message: "Connected to DM".to_owned(),
            };
            Ok(
                Plan::Join(
                    JoinPlan {
                        channel_key,
                        user,
                        confirmation,
                        history: HistoryQuery::Direct { user1, user2 },
                    },
                ),
            )
        },
        WsMessage::Message { body, channel_type, channel_id, client_nonce } => {
            if !body_is_acceptable_exec(body.as_str()) {
                return Err(invalid_body_error());
            }
            let channel_key = dm_channel_key(auth.id, channel_id);
            let stored = trim_body(body.as_str());
            let record = StoredMessage::Direct {
                sender_id: auth.id,
                receiver_id: channel_id,
                body: stored,
                client_nonce,
            };
            Ok(
                Plan::Post(
                    PostPlan {
                        channel_key,
                        record,
                        user_id: auth.id,
                        username: auth.username.clone(),
                        body,
                        channel_type,
                        channel_id,
                    },
                ),
            )
        },
        _ => Ok(Plan::Ignore),
    }
}

/// Decides a client message of a connection of `auth` to Hot Town channel
/// `channel_id`.
///
/// A join is refused unless made under the authenticated user's id; it joins
/// the channel. A post is refused when its body is blank or longer than 2000
/// bytes; otherwise it is stored, trimmed, in the channel under the
/// authenticated user and announced there. Every other message is ignored.
pub fn plan_hot_town_message(auth: &AuthUser, channel_id: u16, msg: WsMessage) -> (r: AppResult<
    Plan,
>)
    ensures
        hot_town_outcome(*auth, channel_id, msg, r),
{
    match msg {
        WsMessage::Connect { user_id, username, .. } => {
            if user_id != auth.id {
                return Err(mismatch_error());
            }
            let channel_key = hot_town_channel_key(channel_id);
            proof { reveal_strlit("hot_town"); }
            let user = ConnectedUser {
                user_id,
                username,
                channel_type: "hot_town".to_owned(),
                channel_id: channel_id as u64,
            };
            let confirmation = WsMessage::Connected {
                user_id,
                message: "Connected to Hot Town".to_owned(),
            };
            Ok(
                Plan::Join(
                    JoinPlan {
                        channel_key,
                        user,
                        confirmation,
                        history: HistoryQuery::Channel { channel_id },
                    },
                ),
            )
        },
        WsMessage::Message { body, .. } => {
            if !body_is_acceptable_exec(body.as_str()) {
                return Err(invalid_body_error());
            }
            let channel_key = hot_town_channel_key(channel_id);
            let stored = trim_body(body.as_str());
            let record = StoredMessage::Channel { channel_id, user_id: auth.id, body: stored };
            Ok(
                Plan::Post(
                    PostPlan {
                        channel_key,
                        record,
                        user_id: auth.id,
                        username: auth.username.clone(),
                        body,
                        channel_type: "hot_town".to_owned(),
                        channel_id: channel_id as u64,
                    },
                ),
            )
        },
        _ => Ok(Plan::Ignore),
    }
}

/// Whether `m` announces `post`, stored under `id` at `created_at`.
pub open spec fn announces(post: PostPlan, id: u64, created_at: Timestamp, m: WsMessage) -> bool {
    m matches WsMessage::NewMessage {
        id: mid,
        user_id,
        username,
        body,
        channel_type,
        channel_id,
        created_at: at,
        is_deleted,
    } && mid == id && user_id == post.user_id && username@ == post.username@ && body@
        == post.body@ && channel_type@ == post.channel_type@ && channel_id == post.channel_id
        && at == created_at && !is_deleted
}

/// The announcement of a stored post: the message as the client sent it, by
/// its author, with the id the database gave it and the time it was stored.
pub fn announce(post: &PostPlan, id: u64, created_at: Timestamp) -> (m: WsMessage)
    ensures
        announces(*post, id, created_at, m),
{
    WsMessage::NewMessage {
        id,
        user_id: post.user_id,
        username: post.username.clone(),
        body: post.body.clone(),
        channel_type: post.channel_type.clone(),
        channel_id: post.channel_id,
        created_at,
        is_deleted: false,
    }
}

/// Whether `m` replays `row`: same fields, not deleted.
pub open spec fn replays(row: HistoryRow, m: HistoryMessage) -> bool {
    &&& m.id == row.id
    &&& m.user_id == row.user_id
    &&& m.username@ == row.username@
    &&& m.body@ == row.body@
    &&& m.created_at == row.created_at
    &&& !m.is_deleted
}

/// The history message of a join: one entry per row, in the rows' order.
pub fn history_message(rows: &Vec<HistoryRow>) -> (m: WsMessage)
    ensures
        m matches WsMessage::History { messages } && messages@.len() == rows@.len() && forall|
            i: int,
        |
            0 <= i < rows@.len() ==> replays(rows@[i], #[trigger] messages@[i]),
{
    let mut messages: Vec<HistoryMessage> = Vec::new();
    let mut i: usize = 0;
    while i < rows.len()
        invariant
            i <= rows@.len(),
            messages@.len() == i,
            forall|j: int| 0 <= j < i ==> replays(rows@[j], #[trigger] messages@[j]),
        decreases rows@.len() - i,
    {
        let row = &rows[i];
        messages.push(
            HistoryMessage {
                id: row.id,
                user_id: row.user_id,
                username: row.username.clone(),
                body: row.body.clone(),
                created_at: row.created_at,
                is_deleted: false,
            },
        );
        i = i + 1;
    }
    WsMessage::History { messages }
}

/// The reply sent when a client message fails: the error's text.
pub fn error_reply(e: &AppError) -> (m: WsMessage)
    ensures
        m matches WsMessage::Error { message } && message@ == e.text_spec(),
{
    WsMessage::Error { message: e.to_text() }
}

/// The message that ends a Hot Town connection of a user whose college does
/// not own the channel; none when the user may use it.
pub fn access_reply(has_access: bool) -> (m: Option<WsMessage>)
    ensures
        has_access ==> m is None,
        !has_access ==> (m matches Some(WsMessage::Error { message }) && message@
            == "Access denied"@),
{
    if has_access {
        None
    } else {
        Some(WsMessage::Error { message: "Access denied".to_owned() })
    }
}

/// What the receiving loop does with a frame: handle a text frame that holds
/// a protocol message, skip other text, binary and control frames, stop on a
/// close frame or at the end of the stream.
pub fn frame_step(frame: Frame) -> (s: Step)
    ensures
        match frame {
            Frame::Text(Some(m)) => s == Step::Handle(m),
            Frame::Text(None) => s is Skip,
            Frame::Other => s is Skip,
            Frame::Close => s is Stop,
            Frame::Ended => s is Stop,
        },
{
    match frame {
        Frame::Text(Some(m)) => Step::Handle(m),
        Frame::Text(None) => Step::Skip,
        Frame::Other => Step::Skip,
        Frame::Close => Step::Stop,
        Frame::Ended => Step::Stop,
    }
}

/// A direct message reaches the conversation its recipient joined: when user
/// `a` joins the conversation with user `b`, and `b` posts an accepted body to
/// `a`, the join and the post name the same channel.
pub proof fn lemma_dm_post_reaches_joined_partner(
    a: AuthUser,
    b: AuthUser,
    join: WsMessage,
    post: WsMessage,
    joined: AppResult<Plan>,
    posted: AppResult<Plan>,
)
    requires
        dm_outcome(a, join, joined),
        dm_outcome(b, post, posted),
        join matches WsMessage::Connect { user_id, channel_id, .. } && user_id == a.id
            && channel_id == b.id,
        post matches WsMessage::Message { body, channel_id, .. } && channel_id == a.id
            && body_is_acceptable(body@),
    ensures
        joined matches Ok(Plan::Join(j)) && posted matches Ok(Plan::Post(p)) && j.channel_key@
            == p.channel_key@,
{
    crate::keys::lemma_dm_channel_key_symmetric(a.id, b.id);
}

/// Every Hot Town connection to one channel joins and posts on the same
/// channel, whoever the users are.
pub proof fn lemma_hot_town_post_reaches_channel(
    a: AuthUser,
    b: AuthUser,
    channel_id: u16,
    join: WsMessage,
    post: WsMessage,
    joined: AppResult<Plan>,
    posted: AppResult<Plan>,
)
    requires
        hot_town_outcome(a, channel_id, join, joined),
        hot_town_outcome(b, channel_id, post, posted),
        join matches WsMessage::Connect { user_id, .. } && user_id == a.id,
        post matches WsMessage::Message { body, .. } && body_is_acceptable(body@),
    ensures
        joined matches Ok(Plan::Join(j)) && posted matches Ok(Plan::Post(p)) && j.channel_key@
            == p.channel_key@,
{
}

/// An accepted direct message is stored as sent by the authenticated user to
/// user `channel_id`, whichever of the two ids is lower, with its body
/// trimmed: a body with a character that is not white space and at most 2000
/// bytes of UTF-8 is accepted.
pub proof fn lemma_dm_post_stored_from_sender_to_recipient(
    auth: AuthUser,
    msg: WsMessage,
    r: AppResult<Plan>,
)
    requires
        dm_outcome(auth, msg, r),
        msg matches WsMessage::Message { body, .. } && (exists|i: int|
            0 <= i < body@.len() && !crate::text::is_white_space(#[trigger] body@[i]))
            && vstd::utf8::encode_utf8(body@).len() <= 2000,
    ensures
        r matches Ok(Plan::Post(p)) && p.record matches StoredMessage::Direct {
            sender_id,
            receiver_id,
            body: stored,
            ..
        } && sender_id == auth.id && receiver_id == msg->Message_channel_id && stored@ == trimmed(
            msg->Message_body@,
        ) && p.user_id == auth.id,
{
    if let WsMessage::Message { body, .. } = msg {
        crate::text::lemma_body_rule(body@);
    }
}

/// An accepted Hot Town post is stored in the connection's channel under the
/// authenticated user, with its body trimmed.
pub proof fn lemma_hot_town_post_stored_under_sender(
    auth: AuthUser,
    channel_id: u16,
    msg: WsMessage,
    r: AppResult<Plan>,
)
    requires
        hot_town_outcome(auth, channel_id, msg, r),
        msg matches WsMessage::Message { body, .. } && (exists|i: int|
            0 <= i < body@.len() && !crate::text::is_white_space(#[trigger] body@[i]))
            && vstd::utf8::encode_utf8(body@).len() <= 2000,
    ensures
        r matches Ok(Plan::Post(p)) && p.record matches StoredMessage::Channel {
            channel_id: cid,
            user_id,
            body: stored,
        } && cid == channel_id && user_id == auth.id && stored@ == trimmed(msg->Message_body@)
            && p.user_id == auth.id,
{
    if let WsMessage::Message { body, .. } = msg {
        crate::text::lemma_body_rule(body@);
    }
}

/// A post whose body is longer than 2000 bytes of UTF-8, or white space only,
/// is refused with the invalid-body error, on either kind of connection.
pub proof fn lemma_bad_body_refused(
    auth: AuthUser,
    channel_id: u16,
    msg: WsMessage,
    dm: AppResult<Plan>,
    hot_town: AppResult<Plan>,
)
    requires
        dm_outcome(auth, msg, dm),
        hot_town_outcome(auth, channel_id, msg, hot_town),
        msg matches WsMessage::Message { body, .. } && ((2000 < vstd::utf8::encode_utf8(body@).len()
            <= usize::MAX) || (forall|i: int|
            0 <= i < body@.len() ==> crate::text::is_white_space(#[trigger] body@[i]))),
    ensures
        dm matches Err(AppError::Validation(m)) && m@ == "Message must be 1-2000 characters"@,
        hot_town matches Err(AppError::Validation(m)) && m@
            == "Message must be 1-2000 characters"@,
{
    if let WsMessage::Message { body, .. } = msg {
        crate::text::lemma_body_rule(body@);
    }
}

/// A join under the authenticated user's id registers that user and confirms
/// with that user's id, whatever the partner or channel is; a join under any
/// other id is refused as a mismatch.
pub proof fn lemma_join_confirms_the_joining_user(
    auth: AuthUser,
    channel_id: u16,
    msg: WsMessage,
    dm: AppResult<Plan>,
    hot_town: AppResult<Plan>,
)
    requires
        dm_outcome(auth, msg, dm),
        hot_town_outcome(auth, channel_id, msg, hot_town),
        msg is Connect,
    ensures
        msg->Connect_user_id == auth.id ==> (dm matches Ok(Plan::Join(j)) && j.confirmation matches WsMessage::Connected {
            user_id,
            ..
        } && user_id == auth.id && j.user.user_id == auth.id),
        msg->Connect_user_id == auth.id ==> (hot_town matches Ok(Plan::Join(j))
            && j.confirmation matches WsMessage::Connected { user_id, .. } && user_id == auth.id
            && j.user.user_id == auth.id),
        msg->Connect_user_id != auth.id ==> (dm matches Err(AppError::Unauthorized(m)) && m@
            == "User ID mismatch"@),
        msg->Connect_user_id != auth.id ==> (hot_town matches Err(AppError::Unauthorized(m)) && m@
            == "User ID mismatch"@),
{
}

/// A join of a direct conversation registers the authenticated user, under
/// the name and channel the client gave, on the conversation with user
/// `channel_id`: the history replayed is that of the two users, lower id
/// first, and the channel is `dm:<lower>:<higher>`.
pub proof fn lemma_dm_join_registers_the_pair(auth: AuthUser, msg: WsMessage, r: AppResult<Plan>)
    requires
        dm_outcome(auth, msg, r),
        msg is Connect,
        msg->Connect_user_id == auth.id,
    ensures
        r matches Ok(Plan::Join(j)) && ({
            &&& j.user.user_id == auth.id
            &&& j.user.channel_id == msg->Connect_channel_id
            &&& j.user.username@ == msg->Connect_username@
            &&& j.user.channel_type@ == msg->Connect_channel_type@
            &&& j.history matches HistoryQuery::Direct { user1, user2 }
            &&& user1 <= user2
            &&& (user1 == auth.id && user2 == msg->Connect_channel_id) || (user2 == auth.id && user1
                == msg->Connect_channel_id)
            &&& j.channel_key@ == seq!['d', 'm', ':'] + decimal(user1 as nat) + seq![':'] + decimal(
                user2 as nat,
            )
        }),
{
    lemma_dm_channel_key_layout(auth.id, msg->Connect_channel_id);
}

/// A join of a Hot Town channel registers the authenticated user, under the
/// name the client gave, as a `hot_town` user of the connection's channel
/// (whatever channel the message names), replays that channel's history and
/// listens on `hot_town:<channel_id>`.
pub proof fn lemma_hot_town_join_registers_the_user(
    auth: AuthUser,
    channel_id: u16,
    msg: WsMessage,
    r: AppResult<Plan>,
)
    requires
        hot_town_outcome(auth, channel_id, msg, r),
        msg is Connect,
        msg->Connect_user_id == auth.id,
    ensures
        r matches Ok(Plan::Join(j)) && j.user.user_id == auth.id && j.user.channel_id
            == channel_id as u64 && j.user.username@ == msg->Connect_username@
            && j.user.channel_type@ == seq!['h', 'o', 't', '_', 't', 'o', 'w', 'n'] && j.history
            == (HistoryQuery::Channel { channel_id }) && j.channel_key@ == seq![
            'h',
            'o',
            't',
            '_',
            't',
            'o',
            'w',
            'n',
            ':',
        ] + decimal(channel_id as nat),
{
    lemma_hot_town_channel_key_layout(channel_id);
    reveal_strlit("hot_town");
}

/// An accepted direct message is announced on the conversation of its sender
/// and its recipient, `dm:<lower>:<higher>`, with the body exactly as sent,
/// the sender's name and the channel the client gave.
pub proof fn lemma_dm_post_announced_on_the_conversation(
    auth: AuthUser,
    msg: WsMessage,
    r: AppResult<Plan>,
)
    requires
        dm_outcome(auth, msg, r),
        msg matches WsMessage::Message { body, .. } && (exists|i: int|
            0 <= i < body@.len() && !crate::text::is_white_space(#[trigger] body@[i]))
            && vstd::utf8::encode_utf8(body@).len() <= 2000,
    ensures
        r matches Ok(Plan::Post(p)) && p.body@ == msg->Message_body@ && p.username@
            == auth.username@ && p.channel_type@ == msg->Message_channel_type@ && p.channel_id
            == msg->Message_channel_id && (auth.id <= msg->Message_channel_id ==> p.channel_key@
            == seq!['d', 'm', ':'] + decimal(auth.id as nat) + seq![':'] + decimal(
            msg->Message_channel_id as nat,
        )) && (msg->Message_channel_id <= auth.id ==> p.channel_key@ == seq!['d', 'm', ':']
            + decimal(msg->Message_channel_id as nat) + seq![':'] + decimal(auth.id as nat)),
{
    crate::text::lemma_body_rule(msg->Message_body@);
    lemma_dm_channel_key_layout(auth.id, msg->Message_channel_id);
}

/// An accepted Hot Town post is announced on `hot_town:<channel_id>` of the
/// connection, as a `hot_town` message of that channel, with the body exactly
/// as sent and the sender's name.
pub proof fn lemma_hot_town_post_announced_on_the_channel(
    auth: AuthUser,
    channel_id: u16,
    msg: WsMessage,
    r: AppResult<Plan>,
)
    requires
        hot_town_outcome(auth, channel_id, msg, r),
        msg matches WsMessage::Message { body, .. } && (exists|i: int|
            0 <= i < body@.len() && !crate::text::is_white_space(#[trigger] body@[i]))
            && vstd::utf8::encode_utf8(body@).len() <= 2000,
    ensures
        r matches Ok(Plan::Post(p)) && p.body@ == msg->Message_body@ && p.username@
            == auth.username@ && p.channel_type@ == seq!['h', 'o', 't', '_', 't', 'o', 'w', 'n']
            && p.channel_id == channel_id as u64 && p.channel_key@ == seq![
            'h',
            'o',
            't',
            '_',
            't',
            'o',
            'w',
            'n',
            ':',
        ] + decimal(channel_id as nat),
{
    crate::text::lemma_body_rule(msg->Message_body@);
    lemma_hot_town_channel_key_layout(channel_id);
    reveal_strlit("hot_town");
}

/// Messages other than joins and posts change nothing and are not answered,
/// on either kind of connection.
pub proof fn lemma_other_messages_ignored(
    auth: AuthUser,
    channel_id: u16,
    msg: WsMessage,
    dm: AppResult<Plan>,
    hot_town: AppResult<Plan>,
)
    requires
        dm_outcome(auth, msg, dm),
        hot_town_outcome(auth, channel_id, msg, hot_town),
        !(msg is Connect),
        !(msg is Message),
    ensures
        dm matches Ok(Plan::Ignore),
        hot_town matches Ok(Plan::Ignore),
{
}

/// An announcement is a new, not deleted message that carries the stored id
/// and time and, unchanged, the post's author, body and channel.
pub proof fn lemma_announcement_carries_the_post(
    post: PostPlan,
    id: u64,
    created_at: Timestamp,
    m: WsMessage,
)
    requires
        announces(post, id, created_at, m),
    ensures
        m is NewMessage,
        m->NewMessage_id == id,
        m->NewMessage_created_at == created_at,
        m->NewMessage_user_id == post.user_id,
        m->NewMessage_username@ == post.username@,
        m->NewMessage_body@ == post.body@,
        m->NewMessage_channel_type@ == post.channel_type@,
        m->NewMessage_channel_id == post.channel_id,
        !m->NewMessage_is_deleted,
{
}

/// A replayed history entry is the row's message, unchanged and not deleted.
pub proof fn lemma_history_entry_is_the_row(row: HistoryRow, m: HistoryMessage)
    requires
        replays(row, m),
    ensures
        m.id == row.id,
        m.user_id == row.user_id,
        m.username@ == row.username@,
        m.body@ == row.body@,
        m.created_at == row.created_at,
        !m.is_deleted,
{
}

} // verus!
