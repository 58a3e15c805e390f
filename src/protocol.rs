//! The frames exchanged with clients over a realtime connection.
use vstd::prelude::*;

verus! {

/// One frame of the realtime protocol. The first five kinds travel from the
/// client to the server, the others from the server to clients. Identifiers
/// are the 128-bit values of the store's UUIDs; timestamps are already
/// formatted text.
#[derive(Debug, Clone, PartialEq, Eq)]
pub enum WsMessage {
    SendMessage {
        chat_room_id: u128,
        content: Option<String>,
        message_type: String,
        media_url: Option<String>,
        view_once: bool,
        expires_in_seconds: Option<i64>,
    },
    TypingStart { chat_room_id: u128 },
    TypingStop { chat_room_id: u128 },
    MarkRead { message_id: u128 },
    MarkViewed { message_id: u128 },
    NewMessage {
        id: u128,
        chat_room_id: u128,
        sender_id: u128,
        sender_username: String,
        message_type: String,
        content: Option<String>,
        media_url: Option<String>,
        media_thumbnail_url: Option<String>,
        view_once: bool,
        created_at: String,
    },
    UserTyping { chat_room_id: u128, user_id: u128, username: String },
    UserStoppedTyping { chat_room_id: u128, user_id: u128 },
    MessageRead { message_id: u128, user_id: u128, read_at: String },
    MessageViewed { message_id: u128, user_id: u128, viewed_at: String },
    MessageExpired { message_id: u128 },
    Error { message: String },
}

impl WsMessage {
    /// The kinds a client may send.
    pub open spec fn spec_is_inbound(&self) -> bool {
        ||| self is SendMessage
        ||| self is TypingStart
        ||| self is TypingStop
        ||| self is MarkRead
        ||| self is MarkViewed
    }

    #[verifier::when_used_as_spec(spec_is_inbound)]
    pub fn is_inbound(&self) -> (r: bool)
        ensures
            r == self.spec_is_inbound(),
    {
        match self {
            WsMessage::SendMessage { .. } => true,
            WsMessage::TypingStart { .. } => true,
            WsMessage::TypingStop { .. } => true,
            WsMessage::MarkRead { .. } => true,
            WsMessage::MarkViewed { .. } => true,
            _ => false,
        }
    }
}

/// The absolute expiry of a message sent at `now` (seconds since the epoch)
/// with an optional time-to-live in seconds.
pub open spec fn spec_expiry(now: i64, ttl: Option<i64>) -> Option<int> {
    match ttl {
        None => None,
        Some(s) => Some(now + s),
    }
}

/// Whether `now + ttl` fits the timestamp range.
pub open spec fn expiry_in_range(now: i64, ttl: Option<i64>) -> bool {
    match ttl {
        None => true,
        Some(s) => i64::MIN <= now + s <= i64::MAX,
    }
}

/// Computes the expiry of a message: `Ok(None)` without a time-to-live,
/// `Ok(Some(now + ttl))` with one, and `Err(())` when the sum leaves the range
/// of timestamps.
pub fn expiry_after(now: i64, ttl: Option<i64>) -> (r: Result<Option<i64>, ()>)
    ensures
        r is Err <==> !expiry_in_range(now, ttl),
        r matches Ok(e) ==> match e {
            None => ttl is None,
            Some(t) => spec_expiry(now, ttl) == Some(t as int),
        },
{
    match ttl {
        None => Ok(None),
        Some(s) => {
            if s > 0 && now > i64::MAX - s {
                Err(())
            } else if s < 0 && now < i64::MIN - s {
                Err(())
            } else {
                Ok(Some(now + s))
            }
        },
    }
}

} // verus!
