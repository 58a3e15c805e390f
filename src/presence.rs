//! The presence store: the keys and lifetimes of its records, the command
//! each operation issues, and a model of the unread counters.
use crate::text::{lemma_find_from_bounds, find, find_from, slice_of, tail_from};
use vstd::prelude::*;
use vstd::string::*;

verus! {

/// Seconds an "online" record lives unless refreshed.
pub const ONLINE_TTL_SECS: u64 = 300;
/// Seconds an "offline" record lives; it tells when the user was last seen.
pub const OFFLINE_TTL_SECS: u64 = 86400;
/// Seconds a typing marker lives, so that a crashed client's marker clears itself.
pub const TYPING_TTL_SECS: u64 = 5;
/// Seconds the last-read time of a room is cached.
pub const LAST_READ_TTL_SECS: u64 = 3600;
/// Seconds a delivery marker lives.
pub const DELIVERED_TTL_SECS: u64 = 86400;

/// The lower-case hexadecimal digit of a value below sixteen.
pub open spec fn hex_digit(n: u128) -> char {
    seq!['0', '1', '2', '3', '4', '5', '6', '7', '8', '9', 'a', 'b', 'c', 'd', 'e', 'f'][n as int]
}

/// The `k`-th hexadecimal digit of an identifier, most significant first.
pub open spec fn id_digit(id: u128, k: int) -> char {
    hex_digit((id >> ((124 - 4 * k) as u128)) & 15u128)
}

/// The 32 hexadecimal digits of an identifier, most significant first.
pub open spec fn id_digits(id: u128) -> Seq<char> {
    Seq::new(32, |k: int| id_digit(id, k))
}

/// The text form of an identifier: its 32 lower-case hexadecimal digits,
/// most significant first, in groups of 8, 4, 4, 4 and 12 joined by `'-'`.
pub open spec fn uuid_text_of(id: u128) -> Seq<char> {
    let d = id_digits(id);
    d.subrange(0, 8) + seq!['-'] + d.subrange(8, 12) + seq!['-'] + d.subrange(12, 16) + seq!['-']
        + d.subrange(16, 20) + seq!['-'] + d.subrange(20, 32)
}

/// What reading a text as an identifier gives.
pub uninterp spec fn uuid_parse_of(s: Seq<char>) -> Option<u128>;

/// Relies on `uuid::Uuid::from_u128`, which takes the value's bytes most
/// significant first, and uuid's `Display`, which writes them in the
/// hyphenated lower-case form (`format_hyphenated`).
#[verifier::external_body]
fn uuid_text(id: u128) -> (r: String)
    ensures
        r@ == uuid_text_of(id),
{
    uuid::Uuid::from_u128(id).to_string()
}

/// Relies on `uuid::Uuid::parse_str` and `Uuid::as_u128`; the result depends
/// on the text alone.
#[verifier::external_body]
fn parse_uuid(s: &str) -> (r: Option<u128>)
    ensures
        r == uuid_parse_of(s@),
{
    uuid::Uuid::parse_str(s).ok().map(|u| u.as_u128())
}

pub open spec fn presence_key_of(user: u128) -> Seq<char> {
    "presence:user:"@ + uuid_text_of(user)
}

pub open spec fn typing_key_of(room: u128, user: u128) -> Seq<char> {
    "typing:"@ + uuid_text_of(room) + ":"@ + uuid_text_of(user)
}

pub open spec fn typing_pattern_of(room: u128) -> Seq<char> {
    "typing:"@ + uuid_text_of(room) + ":*"@
}

pub open spec fn last_read_key_of(user: u128, room: u128) -> Seq<char> {
    "last_read:"@ + uuid_text_of(user) + ":"@ + uuid_text_of(room)
}

pub open spec fn connections_key_of(user: u128) -> Seq<char> {
    "ws_connections:"@ + uuid_text_of(user)
}

pub open spec fn delivered_key_of(message: u128, user: u128) -> Seq<char> {
    "delivered:"@ + uuid_text_of(message) + ":"@ + uuid_text_of(user)
}

pub open spec fn unread_key_of(user: u128, room: u128) -> Seq<char> {
    "unread:"@ + uuid_text_of(user) + ":"@ + uuid_text_of(room)
}

/// `head`, then `a`, then `sep`, then `b`.
fn join_key(head: &str, a: u128, sep: &str, b: u128) -> (r: String)
    ensures
        r@ == head@ + uuid_text_of(a) + sep@ + uuid_text_of(b),
{
    let mut k = String::from_str(head);
    let ta = uuid_text(a);
    k.append(ta.as_str());
    k.append(sep);
    let tb = uuid_text(b);
    k.append(tb.as_str());
    k
}

/// `head`, then `a`.
fn one_key(head: &str, a: u128) -> (r: String)
    ensures
        r@ == head@ + uuid_text_of(a),
{
    let mut k = String::from_str(head);
    let ta = uuid_text(a);
    k.append(ta.as_str());
    k
}

pub fn presence_key(user: u128) -> (r: String)
    ensures
        r@ == presence_key_of(user),
{
    one_key("presence:user:", user)
}

pub fn typing_key(room: u128, user: u128) -> (r: String)
    ensures
        r@ == typing_key_of(room, user),
{
    join_key("typing:", room, ":", user)
}

pub fn typing_pattern(room: u128) -> (r: String)
    ensures
        r@ == typing_pattern_of(room),
{
    let mut k = one_key("typing:", room);
    k.append(":*");
    k
}

pub fn last_read_key(user: u128, room: u128) -> (r: String)
    ensures
        r@ == last_read_key_of(user, room),
{
    join_key("last_read:", user, ":", room)
}

pub fn connections_key(user: u128) -> (r: String)
    ensures
        r@ == connections_key_of(user),
{
    one_key("ws_connections:", user)
}

pub fn delivered_key(message: u128, user: u128) -> (r: String)
    ensures
        r@ == delivered_key_of(message, user),
{
    join_key("delivered:", message, ":", user)
}

pub fn unread_key(user: u128, room: u128) -> (r: String)
    ensures
        r@ == unread_key_of(user, room),
{
    join_key("unread:", user, ":", room)
}

/// One command to the presence store. Every write carries its lifetime.
pub enum PresenceCommand {
    /// Write the user's presence record (online flag, the time now, no typing).
    SetPresence { key: String, user_id: u128, online: bool, ttl_secs: u64 },
    /// Write `value` under `key` for `ttl_secs` seconds.
    SetFor { key: String, value: String, ttl_secs: u64 },
    /// Write the time now, in seconds, under `key` for `ttl_secs` seconds.
    SetNowFor { key: String, ttl_secs: u64 },
    Delete { key: String },
    /// List the keys that match a pattern.
    Keys { pattern: String },
    AddToSet { key: String, member: String },
    RemoveFromSet { key: String, member: String },
    SetMembers { key: String },
    /// Add one to the counter under `key`, which counts from zero when absent.
    Increment { key: String },
    /// Read the counter under `key`; an absent one reads zero.
    ReadCounter { key: String },
}

pub fn set_user_online(user_id: u128) -> (r: PresenceCommand)
    ensures
        r matches PresenceCommand::SetPresence { key, user_id: u, online, ttl_secs }
            && key@ == presence_key_of(user_id) && u == user_id && online && ttl_secs == ONLINE_TTL_SECS,
{
    PresenceCommand::SetPresence { key: presence_key(user_id), user_id, online: true, ttl_secs: ONLINE_TTL_SECS }
}

pub fn set_user_offline(user_id: u128) -> (r: PresenceCommand)
    ensures
        r matches PresenceCommand::SetPresence { key, user_id: u, online, ttl_secs }
            && key@ == presence_key_of(user_id) && u == user_id && !online && ttl_secs == OFFLINE_TTL_SECS,
{
    PresenceCommand::SetPresence { key: presence_key(user_id), user_id, online: false, ttl_secs: OFFLINE_TTL_SECS }
}

pub fn set_typing(user_id: u128, chat_room_id: u128) -> (r: PresenceCommand)
    ensures
        r matches PresenceCommand::SetFor { key, value, ttl_secs }
            && key@ == typing_key_of(chat_room_id, user_id) && value@ == "1"@ && ttl_secs == TYPING_TTL_SECS,
{
    PresenceCommand::SetFor {
        key: typing_key(chat_room_id, user_id),
        value: String::from_str("1"),
        ttl_secs: TYPING_TTL_SECS,
    }
}

pub fn clear_typing(user_id: u128, chat_room_id: u128) -> (r: PresenceCommand)
    ensures
        r matches PresenceCommand::Delete { key } && key@ == typing_key_of(chat_room_id, user_id),
{
    PresenceCommand::Delete { key: typing_key(chat_room_id, user_id) }
}

/// The command that lists the typing markers of a room; its answer goes to
/// `typing_users_from_keys`.
pub fn get_typing_users(chat_room_id: u128) -> (r: PresenceCommand)
    ensures
        r matches PresenceCommand::Keys { pattern } && pattern@ == typing_pattern_of(chat_room_id),
{
    PresenceCommand::Keys { pattern: typing_pattern(chat_room_id) }
}

pub fn cache_last_read(user_id: u128, chat_room_id: u128) -> (r: PresenceCommand)
    ensures
        r matches PresenceCommand::SetNowFor { key, ttl_secs }
            && key@ == last_read_key_of(user_id, chat_room_id) && ttl_secs == LAST_READ_TTL_SECS,
{
    PresenceCommand::SetNowFor { key: last_read_key(user_id, chat_room_id), ttl_secs: LAST_READ_TTL_SECS }
}

pub fn add_ws_connection(user_id: u128, connection_id: &str) -> (r: PresenceCommand)
    ensures
        r matches PresenceCommand::AddToSet { key, member }
            && key@ == connections_key_of(user_id) && member@ == connection_id@,
{
    PresenceCommand::AddToSet { key: connections_key(user_id), member: String::from_str(connection_id) }
}

pub fn remove_ws_connection(user_id: u128, connection_id: &str) -> (r: PresenceCommand)
    ensures
        r matches PresenceCommand::RemoveFromSet { key, member }
            && key@ == connections_key_of(user_id) && member@ == connection_id@,
{
    PresenceCommand::RemoveFromSet { key: connections_key(user_id), member: String::from_str(connection_id) }
}

pub fn get_user_connections(user_id: u128) -> (r: PresenceCommand)
    ensures
        r matches PresenceCommand::SetMembers { key } && key@ == connections_key_of(user_id),
{
    PresenceCommand::SetMembers { key: connections_key(user_id) }
}

pub fn mark_message_delivered(message_id: u128, user_id: u128) -> (r: PresenceCommand)
    ensures
        r matches PresenceCommand::SetFor { key, value, ttl_secs }
            && key@ == delivered_key_of(message_id, user_id) && value@ == "1"@ && ttl_secs == DELIVERED_TTL_SECS,
{
    PresenceCommand::SetFor {
        key: delivered_key(message_id, user_id),
        value: String::from_str("1"),
        ttl_secs: DELIVERED_TTL_SECS,
    }
}

pub fn increment_unread(user_id: u128, chat_room_id: u128) -> (r: PresenceCommand)
    ensures
        r matches PresenceCommand::Increment { key } && key@ == unread_key_of(user_id, chat_room_id),
{
    PresenceCommand::Increment { key: unread_key(user_id, chat_room_id) }
}

pub fn clear_unread(user_id: u128, chat_room_id: u128) -> (r: PresenceCommand)
    ensures
        r matches PresenceCommand::Delete { key } && key@ == unread_key_of(user_id, chat_room_id),
{
    PresenceCommand::Delete { key: unread_key(user_id, chat_room_id) }
}

pub fn get_unread_count(user_id: u128, chat_room_id: u128) -> (r: PresenceCommand)
    ensures
        r matches PresenceCommand::ReadCounter { key } && key@ == unread_key_of(user_id, chat_room_id),
{
    PresenceCommand::ReadCounter { key: unread_key(user_id, chat_room_id) }
}

/// The third `':'`-separated field of a key.
pub open spec fn third_field(s: Seq<char>) -> Option<Seq<char>> {
    match find_from(s, ":"@, 0) {
        None => None,
        Some(i) => match find_from(s, ":"@, i + 1) {
            None => None,
            Some(j) => match find_from(s, ":"@, j + 1) {
                None => Some(s.subrange(j + 1, s.len() as int)),
                Some(k) => Some(s.subrange(j + 1, k)),
            },
        },
    }
}

/// The user a typing marker's key names, if it names one.
pub open spec fn typist_of(key: Seq<char>) -> Option<u128> {
    match third_field(key) {
        Some(f) => uuid_parse_of(f),
        None => None,
    }
}

/// The users named by a list of typing keys, in order, skipping keys that
/// name none.
pub open spec fn typists(keys: Seq<String>) -> Seq<u128>
    decreases keys.len(),
{
    if keys.len() == 0 {
        Seq::empty()
    } else {
        let p = typists(keys.drop_last());
        match typist_of(keys.last()@) {
            Some(u) => p.push(u),
            None => p,
        }
    }
}

fn third_field_of(key: &str) -> (r: Option<String>)
    ensures
        r is None <==> third_field(key@) is None,
        r matches Some(f) ==> third_field(key@) == Some(f@),
{
    let len = key.unicode_len();
    let colon = ":";
    proof {
        // Positions in `key` fit in `usize`.
        assert(len == key@.len());
        reveal_strlit(":");
        lemma_find_from_bounds(key@, colon@, 0);
    }
    match find(key, colon, 0) {
        None => None,
        Some(i) => {
            proof {
                lemma_find_from_bounds(key@, colon@, i + 1);
            }
            match find(key, colon, i + 1) {
                None => None,
                Some(j) => {
                    proof {
                        lemma_find_from_bounds(key@, colon@, j + 1);
                    }
                    match find(key, colon, j + 1) {
                        None => Some(tail_from(key, j + 1)),
                        Some(k) => Some(slice_of(key, j + 1, k)),
                    }
                },
            }
        },
    }
}

/// The users that the typing keys of a room name.
pub fn typing_users_from_keys(keys: &Vec<String>) -> (r: Vec<u128>)
    ensures
        r@ == typists(keys@),
{
    let mut out: Vec<u128> = Vec::new();
    let mut i: usize = 0;
    while i < keys.len()
        invariant
            i <= keys.len(),
            out@ == typists(keys@.subrange(0, i as int)),
        decreases keys.len() - i,
    {
        proof {
            assert(keys@.subrange(0, i as int + 1).drop_last() == keys@.subrange(0, i as int));
        }
        match third_field_of(keys[i].as_str()) {
            Some(f) => match parse_uuid(f.as_str()) {
                Some(u) => out.push(u),
                None => {},
            },
            None => {},
        }
        i = i + 1;
    }
    proof {
        assert(keys@.subrange(0, keys@.len() as int) == keys@);
    }
    out
}

} // verus!
