//! The per-connection protocol handler, as a state machine. Each inbound
//! frame starts a run; each store request or fan-out that the machine asks
//! for is carried out by the caller, whose answer resumes the machine, until
//! it reports `Finished`. Runs of one connection are processed one after
//! another.
use crate::protocol::{expiry_after, expiry_in_range, spec_expiry, WsMessage};
use vstd::prelude::*;

verus! {

/// A message as the sender asked for it, kept while the run goes on.
#[derive(Debug, Clone, PartialEq, Eq)]
pub struct Draft {
    pub chat_room_id: u128,
    pub content: Option<String>,
    pub message_type: String,
    pub media_url: Option<String>,
    pub view_once: bool,
}

/// A request to the message store or the presence store.
#[derive(Debug, Clone, PartialEq, Eq)]
pub enum StoreRequest {
    /// Insert a message row; answered by `Inserted`.
    InsertMessage {
        chat_room_id: u128,
        sender_id: u128,
        message_type: String,
        content: Option<String>,
        media_url: Option<String>,
        view_once: bool,
        expires_at: Option<i64>,
    },
    /// Answered by `Username`.
    FetchUsername { user_id: u128 },
    /// Answered by `Members`.
    FetchMembers { chat_room_id: u128 },
    /// Write the short-lived typing marker; answered by `Done`.
    SetTyping { user_id: u128, chat_room_id: u128 },
    /// Answered by `Done`.
    ClearTyping { user_id: u128, chat_room_id: u128 },
    /// Insert a read record, doing nothing on a duplicate; answered by `Recorded`.
    InsertRead { message_id: u128, user_id: u128 },
    /// Insert a view record, doing nothing on a duplicate; answered by `Recorded`.
    InsertView { message_id: u128, user_id: u128 },
    /// Answered by `MessageInfo`.
    FetchMessage { message_id: u128 },
    /// Whether the user saved the message; answered by `Saved`.
    CheckSaved { message_id: u128, user_id: u128 },
    /// Soft-delete the message; answered by `Done`.
    SoftDelete { message_id: u128 },
    /// Add one to each listed user's unread counter of the room; answered by `Done`.
    IncrementUnread { user_ids: Vec<u128>, chat_room_id: u128 },
    /// Reset the user's unread counter of the room; answered by `Done`.
    ClearUnread { user_id: u128, chat_room_id: u128 },
}

/// The caller's answer to the last action.
#[derive(Debug, Clone, PartialEq, Eq)]
pub enum StoreReply {
    Inserted { id: u128, created_at: String },
    Username(String),
    Members(Vec<u128>),
    /// The time of the new record, or `None` when the record already existed.
    Recorded(Option<String>),
    MessageInfo { sender_id: u128, chat_room_id: u128, view_once: bool },
    Saved(bool),
    /// A write went through.
    Done,
    /// A fan-out went through; the listed recipients had no channel.
    Delivered { offline: Vec<u128> },
    /// The request failed.
    Failed,
}

/// What the machine asks of its caller next.
#[derive(Debug, Clone, PartialEq, Eq)]
pub enum Action {
    Store(StoreRequest),
    /// Hand `event` to the channel of each recipient, once each.
    Deliver { recipients: Vec<u128>, event: WsMessage },
    /// The run is over.
    Finished,
}

/// Where a run stands.
#[derive(Debug, Clone, PartialEq, Eq)]
pub enum Stage {
    Idle,
    AwaitInsert { draft: Draft },
    AwaitSenderName { draft: Draft, id: u128, created_at: String },
    AwaitMembers { draft: Draft, id: u128, created_at: String, sender_username: String },
    AwaitFanOut { chat_room_id: u128 },
    AwaitUnreadIncrement,
    AwaitTypingMark { chat_room_id: u128 },
    AwaitTypistName { chat_room_id: u128 },
    AwaitTypingMembers { chat_room_id: u128, username: String },
    AwaitTypingClear { chat_room_id: u128 },
    AwaitStopMembers { chat_room_id: u128 },
    AwaitReadRecord { message_id: u128 },
    AwaitReadMessage { message_id: u128, read_at: String },
    AwaitUnreadClear { message_id: u128, read_at: String, sender_id: u128 },
    AwaitViewRecord { message_id: u128 },
    AwaitViewMessage { message_id: u128, viewed_at: String },
    AwaitViewedNotice { message_id: u128, chat_room_id: u128, view_once: bool },
    AwaitSaveCheck { message_id: u128, chat_room_id: u128 },
    AwaitSoftDelete { message_id: u128, chat_room_id: u128 },
    AwaitExpiredMembers { message_id: u128 },
    AwaitDelivery,
}

/// The sequence with only the first occurrence of each element kept.
pub open spec fn dedup(s: Seq<u128>) -> Seq<u128>
    decreases s.len(),
{
    if s.len() == 0 {
        s
    } else {
        let p = dedup(s.drop_last());
        if p.contains(s.last()) {
            p
        } else {
            p.push(s.last())
        }
    }
}

/// The recipients in order, each once.
pub fn distinct(v: &Vec<u128>) -> (r: Vec<u128>)
    ensures
        r@ == dedup(v@),
{
    let mut out: Vec<u128> = Vec::new();
    let mut i: usize = 0;
    while i < v.len()
        invariant
            i <= v.len(),
            out@ == dedup(v@.subrange(0, i as int)),
        decreases v.len() - i,
    {
        proof {
            assert(v@.subrange(0, i as int + 1).drop_last() == v@.subrange(0, i as int));
        }
        let x = v[i];
        let mut found = false;
        let mut j: usize = 0;
        while j < out.len()
            invariant
                j <= out.len(),
                found == out@.subrange(0, j as int).contains(x),
            decreases out.len() - j,
        {
            proof {
                assert(out@.subrange(0, j as int + 1) == out@.subrange(0, j as int).push(out@[j as int]));
            }
            if out[j] == x {
                found = true;
            }
            proof {
                assert(out@.subrange(0, j as int + 1).contains(x) == (out@.subrange(0, j as int).contains(x)
                    || out@[j as int] == x)) by {
                    let a = out@.subrange(0, j as int);
                    let b = out@.subrange(0, j as int + 1);
                    if b.contains(x) {
                        let k = choose|k: int| 0 <= k < b.len() && b[k] == x;
                        if k < j {
                            assert(a[k] == x);
                        }
                    }
                    if a.contains(x) {
                        let k = choose|k: int| 0 <= k < a.len() && a[k] == x;
                        assert(b[k] == x);
                    }
                    if out@[j as int] == x {
                        assert(b[j as int] == x);
                    }
                }
            }
            j = j + 1;
        }
        proof {
            assert(out@.subrange(0, out@.len() as int) == out@);
        }
        if !found {
            out.push(x);
        }
        i = i + 1;
    }
    proof {
        assert(v@.subrange(0, v@.len() as int) == v@);
    }
    out
}

/// A deliver action to exactly `recipients`, each once, of `event`.
pub open spec fn delivers(a: Action, recipients: Seq<u128>, event: WsMessage) -> bool {
    a matches Action::Deliver { recipients: r, event: e } && r@ == recipients && e == event
}

/// A deliver action of an error frame to the user alone.
pub open spec fn rejects(a: Action, user: u128) -> bool {
    a matches Action::Deliver { recipients: r, event: e } && r@ == seq![user] && e is Error
}

/// The start of a run for an inbound frame received from `user` at `now`.
pub open spec fn starts(user: u128, msg: WsMessage, now: i64, t: Stage, a: Action) -> bool {
    match msg {
        WsMessage::SendMessage {
            chat_room_id,
            content,
            message_type,
            media_url,
            view_once,
            expires_in_seconds,
        } => if expiry_in_range(now, expires_in_seconds) {
            &&& t == (Stage::AwaitInsert {
                draft: Draft { chat_room_id, content, message_type, media_url, view_once },
            })
            &&& a matches Action::Store(StoreRequest::InsertMessage {
                chat_room_id: c,
                sender_id: s,
                message_type: mt,
                content: ct,
                media_url: mu,
                view_once: vo,
                expires_at: e,
            })
            &&& c == chat_room_id && s == user && mt == message_type && ct == content
            &&& mu == media_url && vo == view_once
            &&& match e {
                None => expires_in_seconds is None,
                Some(x) => spec_expiry(now, expires_in_seconds) == Some(x as int),
            }
        } else {
            t is AwaitDelivery && rejects(a, user)
        },
        WsMessage::TypingStart { chat_room_id } => {
            &&& t == (Stage::AwaitTypingMark { chat_room_id })
            &&& a == Action::Store(StoreRequest::SetTyping { user_id: user, chat_room_id })
        },
        WsMessage::TypingStop { chat_room_id } => {
            &&& t == (Stage::AwaitTypingClear { chat_room_id })
            &&& a == Action::Store(StoreRequest::ClearTyping { user_id: user, chat_room_id })
        },
        WsMessage::MarkRead { message_id } => {
            &&& t == (Stage::AwaitReadRecord { message_id })
            &&& a == Action::Store(StoreRequest::InsertRead { message_id, user_id: user })
        },
        WsMessage::MarkViewed { message_id } => {
            &&& t == (Stage::AwaitViewRecord { message_id })
            &&& a == Action::Store(StoreRequest::InsertView { message_id, user_id: user })
        },
        _ => t is AwaitDelivery && rejects(a, user),
    }
}

/// The end of a run.
pub open spec fn ends(t: Stage, a: Action) -> bool {
    t is Idle && a is Finished
}

/// One step of a run of `user`'s connection: from stage `s`, on the reply
/// `reply`, to stage `t` with action `a`. A reply that does not answer the
/// stage's request, and a failure, end the run.
pub open spec fn resumes(user: u128, s: Stage, reply: StoreReply, t: Stage, a: Action) -> bool {
    match s {
        Stage::AwaitInsert { draft } => match reply {
            StoreReply::Inserted { id, created_at } => {
                &&& t == (Stage::AwaitSenderName { draft, id, created_at })
                &&& a == Action::Store(StoreRequest::FetchUsername { user_id: user })
            },
            _ => ends(t, a),
        },
        Stage::AwaitSenderName { draft, id, created_at } => match reply {
            StoreReply::Username(sender_username) => {
                &&& t == (Stage::AwaitMembers { draft, id, created_at, sender_username })
                &&& a == Action::Store(StoreRequest::FetchMembers { chat_room_id: draft.chat_room_id })
            },
            _ => ends(t, a),
        },
        Stage::AwaitMembers { draft, id, created_at, sender_username } => match reply {
            StoreReply::Members(ms) => {
                &&& t == (Stage::AwaitFanOut { chat_room_id: draft.chat_room_id })
                &&& delivers(a, dedup(ms@), WsMessage::NewMessage {
                    id,
                    chat_room_id: draft.chat_room_id,
                    sender_id: user,
                    sender_username,
                    message_type: draft.message_type,
                    content: draft.content,
                    media_url: draft.media_url,
                    media_thumbnail_url: None,
                    view_once: draft.view_once,
                    created_at,
                })
            },
            _ => ends(t, a),
        },
        Stage::AwaitFanOut { chat_room_id } => match reply {
            StoreReply::Delivered { offline } => if offline@.len() == 0 {
                ends(t, a)
            } else {
                &&& t is AwaitUnreadIncrement
                &&& a matches Action::Store(StoreRequest::IncrementUnread { user_ids, chat_room_id: c })
                &&& user_ids@ == offline@ && c == chat_room_id
            },
            _ => ends(t, a),
        },
        Stage::AwaitTypingMark { chat_room_id } => match reply {
            StoreReply::Done => {
                &&& t == (Stage::AwaitTypistName { chat_room_id })
                &&& a == Action::Store(StoreRequest::FetchUsername { user_id: user })
            },
            _ => ends(t, a),
        },
        Stage::AwaitTypistName { chat_room_id } => match reply {
            StoreReply::Username(username) => {
                &&& t == (Stage::AwaitTypingMembers { chat_room_id, username })
                &&& a == Action::Store(StoreRequest::FetchMembers { chat_room_id })
            },
            _ => ends(t, a),
        },
        Stage::AwaitTypingMembers { chat_room_id, username } => match reply {
            StoreReply::Members(ms) => {
                &&& t is AwaitDelivery
                &&& delivers(a, dedup(ms@), WsMessage::UserTyping { chat_room_id, user_id: user, username })
            },
            _ => ends(t, a),
        },
        Stage::AwaitTypingClear { chat_room_id } => match reply {
            StoreReply::Done => {
                &&& t == (Stage::AwaitStopMembers { chat_room_id })
                &&& a == Action::Store(StoreRequest::FetchMembers { chat_room_id })
            },
            _ => ends(t, a),
        },
        Stage::AwaitStopMembers { chat_room_id } => match reply {
            StoreReply::Members(ms) => {
                &&& t is AwaitDelivery
                &&& delivers(a, dedup(ms@), WsMessage::UserStoppedTyping { chat_room_id, user_id: user })
            },
            _ => ends(t, a),
        },
        Stage::AwaitReadRecord { message_id } => match reply {
            StoreReply::Recorded(Some(read_at)) => {
                &&& t == (Stage::AwaitReadMessage { message_id, read_at })
                &&& a == Action::Store(StoreRequest::FetchMessage { message_id })
            },
            _ => ends(t, a),
        },
        Stage::AwaitReadMessage { message_id, read_at } => match reply {
            StoreReply::MessageInfo { sender_id, chat_room_id, view_once: _ } => {
                &&& t == (Stage::AwaitUnreadClear { message_id, read_at, sender_id })
                &&& a == Action::Store(StoreRequest::ClearUnread { user_id: user, chat_room_id })
            },
            _ => ends(t, a),
        },
        Stage::AwaitUnreadClear { message_id, read_at, sender_id } => match reply {
            StoreReply::Done => {
                &&& t is AwaitDelivery
                &&& delivers(a, seq![sender_id], WsMessage::MessageRead { message_id, user_id: user, read_at })
            },
            _ => ends(t, a),
        },
        Stage::AwaitViewRecord { message_id } => match reply {
            StoreReply::Recorded(Some(viewed_at)) => {
                &&& t == (Stage::AwaitViewMessage { message_id, viewed_at })
                &&& a == Action::Store(StoreRequest::FetchMessage { message_id })
            },
            _ => ends(t, a),
        },
        Stage::AwaitViewMessage { message_id, viewed_at } => match reply {
            StoreReply::MessageInfo { sender_id, chat_room_id, view_once } => {
                &&& t == (Stage::AwaitViewedNotice { message_id, chat_room_id, view_once })
                &&& delivers(a, seq![sender_id], WsMessage::MessageViewed { message_id, user_id: user, viewed_at })
            },
            _ => ends(t, a),
        },
        Stage::AwaitViewedNotice { message_id, chat_room_id, view_once } => match reply {
            StoreReply::Delivered { .. } => if view_once {
                &&& t == (Stage::AwaitSaveCheck { message_id, chat_room_id })
                &&& a == Action::Store(StoreRequest::CheckSaved { message_id, user_id: user })
            } else {
                ends(t, a)
            },
            _ => ends(t, a),
        },
        Stage::AwaitSaveCheck { message_id, chat_room_id } => match reply {
            StoreReply::Saved(false) => {
                &&& t == (Stage::AwaitSoftDelete { message_id, chat_room_id })
                &&& a == Action::Store(StoreRequest::SoftDelete { message_id })
            },
            _ => ends(t, a),
        },
        Stage::AwaitSoftDelete { message_id, chat_room_id } => match reply {
            StoreReply::Done => {
                &&& t == (Stage::AwaitExpiredMembers { message_id })
                &&& a == Action::Store(StoreRequest::FetchMembers { chat_room_id })
            },
            _ => ends(t, a),
        },
        Stage::AwaitExpiredMembers { message_id } => match reply {
            StoreReply::Members(ms) => {
                &&& t is AwaitDelivery
                &&& delivers(a, dedup(ms@), WsMessage::MessageExpired { message_id })
            },
            _ => ends(t, a),
        },
        _ => ends(t, a),
    }
}

/// A recipient list of one user.
fn just(user: u128) -> (r: Vec<u128>)
    ensures
        r@ == seq![user],
{
    let mut v: Vec<u128> = Vec::new();
    v.push(user);
    proof {
        assert(v@ =~= seq![user]);
    }
    v
}

fn copy_text(s: &String) -> (r: String)
    ensures
        r == *s,
{
    s.clone()
}

fn copy_opt_text(o: &Option<String>) -> (r: Option<String>)
    ensures
        r == *o,
{
    match o {
        Some(s) => Some(s.clone()),
        None => None,
    }
}

fn error_frame(user: u128, text: &str) -> (r: (Stage, Action))
    ensures
        r.0 is AwaitDelivery,
        rejects(r.1, user),
{
    let message = String::from_str(text);
    (Stage::AwaitDelivery, Action::Deliver { recipients: just(user), event: WsMessage::Error { message } })
}

/// The answer to a frame that could not be decoded: an error frame to the
/// sender alone; the connection stays open.
pub fn reject_frame(user: u128) -> (r: (Stage, Action))
    ensures
        r.0 is AwaitDelivery,
        rejects(r.1, user),
{
    error_frame(user, "malformed frame")
}

/// Starts the run of an inbound frame from `user`, received at `now`
/// (seconds since the epoch). A frame of an outbound kind, or a time-to-live
/// that leaves the range of timestamps, is answered with an error frame.
pub fn start(user: u128, msg: WsMessage, now: i64) -> (r: (Stage, Action))
    ensures
        starts(user, msg, now, r.0, r.1),
{
    match msg {
        WsMessage::SendMessage {
            chat_room_id,
            content,
            message_type,
            media_url,
            view_once,
            expires_in_seconds,
        } => match expiry_after(now, expires_in_seconds) {
            Ok(expires_at) => {
                let req = StoreRequest::InsertMessage {
                    chat_room_id,
                    sender_id: user,
                    message_type: copy_text(&message_type),
                    content: copy_opt_text(&content),
                    media_url: copy_opt_text(&media_url),
                    view_once,
                    expires_at,
                };
                let draft = Draft { chat_room_id, content, message_type, media_url, view_once };
                (Stage::AwaitInsert { draft }, Action::Store(req))
            },
            Err(()) => error_frame(user, "expiry out of range"),
        },
        WsMessage::TypingStart { chat_room_id } => (
            Stage::AwaitTypingMark { chat_room_id },
            Action::Store(StoreRequest::SetTyping { user_id: user, chat_room_id }),
        ),
        WsMessage::TypingStop { chat_room_id } => (
            Stage::AwaitTypingClear { chat_room_id },
            Action::Store(StoreRequest::ClearTyping { user_id: user, chat_room_id }),
        ),
        WsMessage::MarkRead { message_id } => (
            Stage::AwaitReadRecord { message_id },
            Action::Store(StoreRequest::InsertRead { message_id, user_id: user }),
        ),
        WsMessage::MarkViewed { message_id } => (
            Stage::AwaitViewRecord { message_id },
            Action::Store(StoreRequest::InsertView { message_id, user_id: user }),
        ),
        _ => error_frame(user, "unexpected event kind"),
    }
}

/// Resumes a run of `user`'s connection with the caller's reply.
pub fn resume(user: u128, s: Stage, reply: StoreReply) -> (r: (Stage, Action))
    ensures
        resumes(user, s, reply, r.0, r.1),
{
    match s {
        Stage::AwaitInsert { draft } => match reply {
            StoreReply::Inserted { id, created_at } => (
                Stage::AwaitSenderName { draft, id, created_at },
                Action::Store(StoreRequest::FetchUsername { user_id: user }),
            ),
            _ => (Stage::Idle, Action::Finished),
        },
        Stage::AwaitSenderName { draft, id, created_at } => match reply {
            StoreReply::Username(sender_username) => {
                let chat_room_id = draft.chat_room_id;
                (
                    Stage::AwaitMembers { draft, id, created_at, sender_username },
                    Action::Store(StoreRequest::FetchMembers { chat_room_id }),
                )
            },
            _ => (Stage::Idle, Action::Finished),
        },
        Stage::AwaitMembers { draft, id, created_at, sender_username } => match reply {
            StoreReply::Members(ms) => {
                let chat_room_id = draft.chat_room_id;
                let event = WsMessage::NewMessage {
                    id,
                    chat_room_id,
                    sender_id: user,
                    sender_username,
                    message_type: draft.message_type,
                    content: draft.content,
                    media_url: draft.media_url,
                    media_thumbnail_url: None,
                    view_once: draft.view_once,
                    created_at,
                };
                (Stage::AwaitFanOut { chat_room_id }, Action::Deliver { recipients: distinct(&ms), event })
            },
            _ => (Stage::Idle, Action::Finished),
        },
        Stage::AwaitFanOut { chat_room_id } => match reply {
            StoreReply::Delivered { offline } => {
                if offline.len() == 0 {
                    (Stage::Idle, Action::Finished)
                } else {
                    (
                        Stage::AwaitUnreadIncrement,
                        Action::Store(StoreRequest::IncrementUnread { user_ids: offline, chat_room_id }),
                    )
                }
            },
            _ => (Stage::Idle, Action::Finished),
        },
        Stage::AwaitTypingMark { chat_room_id } => match reply {
            StoreReply::Done => (
                Stage::AwaitTypistName { chat_room_id },
                Action::Store(StoreRequest::FetchUsername { user_id: user }),
            ),
            _ => (Stage::Idle, Action::Finished),
        },
        Stage::AwaitTypistName { chat_room_id } => match reply {
            StoreReply::Username(username) => (
                Stage::AwaitTypingMembers { chat_room_id, username },
                Action::Store(StoreRequest::FetchMembers { chat_room_id }),
            ),
            _ => (Stage::Idle, Action::Finished),
        },
        Stage::AwaitTypingMembers { chat_room_id, username } => match reply {
            StoreReply::Members(ms) => (
                Stage::AwaitDelivery,
                Action::Deliver {
                    recipients: distinct(&ms),
                    event: WsMessage::UserTyping { chat_room_id, user_id: user, username },
                },
            ),
            _ => (Stage::Idle, Action::Finished),
        },
        Stage::AwaitTypingClear { chat_room_id } => match reply {
            StoreReply::Done => (
                Stage::AwaitStopMembers { chat_room_id },
                Action::Store(StoreRequest::FetchMembers { chat_room_id }),
            ),
            _ => (Stage::Idle, Action::Finished),
        },
        Stage::AwaitStopMembers { chat_room_id } => match reply {
            StoreReply::Members(ms) => (
                Stage::AwaitDelivery,
                Action::Deliver {
                    recipients: distinct(&ms),
                    event: WsMessage::UserStoppedTyping { chat_room_id, user_id: user },
                },
            ),
            _ => (Stage::Idle, Action::Finished),
        },
        Stage::AwaitReadRecord { message_id } => match reply {
            StoreReply::Recorded(Some(read_at)) => (
                Stage::AwaitReadMessage { message_id, read_at },
                Action::Store(StoreRequest::FetchMessage { message_id }),
            ),
            _ => (Stage::Idle, Action::Finished),
        },
        Stage::AwaitReadMessage { message_id, read_at } => match reply {
            StoreReply::MessageInfo { sender_id, chat_room_id, view_once: _ } => (
                Stage::AwaitUnreadClear { message_id, read_at, sender_id },
                Action::Store(StoreRequest::ClearUnread { user_id: user, chat_room_id }),
            ),
            _ => (Stage::Idle, Action::Finished),
        },
        Stage::AwaitUnreadClear { message_id, read_at, sender_id } => match reply {
            StoreReply::Done => (
                Stage::AwaitDelivery,
                Action::Deliver {
                    recipients: just(sender_id),
                    event: WsMessage::MessageRead { message_id, user_id: user, read_at },
                },
            ),
            _ => (Stage::Idle, Action::Finished),
        },
        Stage::AwaitViewRecord { message_id } => match reply {
            StoreReply::Recorded(Some(viewed_at)) => (
                Stage::AwaitViewMessage { message_id, viewed_at },
                Action::Store(StoreRequest::FetchMessage { message_id }),
            ),
            _ => (Stage::Idle, Action::Finished),
        },
        Stage::AwaitViewMessage { message_id, viewed_at } => match reply {
            StoreReply::MessageInfo { sender_id, chat_room_id, view_once } => (
                Stage::AwaitViewedNotice { message_id, chat_room_id, view_once },
                Action::Deliver {
                    recipients: just(sender_id),
                    event: WsMessage::MessageViewed { message_id, user_id: user, viewed_at },
                },
            ),
            _ => (Stage::Idle, Action::Finished),
        },
        Stage::AwaitViewedNotice { message_id, chat_room_id, view_once } => match reply {
            StoreReply::Delivered { .. } => {
                if view_once {
                    (
                        Stage::AwaitSaveCheck { message_id, chat_room_id },
                        Action::Store(StoreRequest::CheckSaved { message_id, user_id: user }),
                    )
                } else {
                    (Stage::Idle, Action::Finished)
                }
            },
            _ => (Stage::Idle, Action::Finished),
        },
        Stage::AwaitSaveCheck { message_id, chat_room_id } => match reply {
            StoreReply::Saved(false) => (
                Stage::AwaitSoftDelete { message_id, chat_room_id },
                Action::Store(StoreRequest::SoftDelete { message_id }),
            ),
            _ => (Stage::Idle, Action::Finished),
        },
        Stage::AwaitSoftDelete { message_id, chat_room_id } => match reply {
            StoreReply::Done => (
                Stage::AwaitExpiredMembers { message_id },
                Action::Store(StoreRequest::FetchMembers { chat_room_id }),
            ),
            _ => (Stage::Idle, Action::Finished),
        },
        Stage::AwaitExpiredMembers { message_id } => match reply {
            StoreReply::Members(ms) => (
                Stage::AwaitDelivery,
                Action::Deliver { recipients: distinct(&ms), event: WsMessage::MessageExpired { message_id } },
            ),
            _ => (Stage::Idle, Action::Finished),
        },
        _ => (Stage::Idle, Action::Finished),
    }
}


proof fn lemma_dedup_members(s: Seq<u128>)
    ensures
        dedup(s).no_duplicates(),
        forall|x: u128| dedup(s).contains(x) <==> s.contains(x),
    decreases s.len(),
{
    if s.len() > 0 {
        let q = s.drop_last();
        lemma_dedup_members(q);
        let p = dedup(q);
        assert forall|x: u128| dedup(s).contains(x) <==> s.contains(x) by {
            if s.contains(x) && x != s.last() {
                let k = choose|k: int| 0 <= k < s.len() && s[k] == x;
                assert(q[k] == x);
            }
            if q.contains(x) {
                let k = choose|k: int| 0 <= k < q.len() && q[k] == x;
                assert(s[k] == x);
            }
            assert(s[s.len() - 1] == s.last());
            if !p.contains(s.last()) {
                assert(p.push(s.last())[p.len() as int] == s.last());
                if p.contains(x) {
                    let k = choose|k: int| 0 <= k < p.len() && p[k] == x;
                    assert(p.push(s.last())[k] == x);
                }
                if p.push(s.last()).contains(x) && x != s.last() {
                    let k = choose|k: int| 0 <= k < p.len() + 1 && p.push(s.last())[k] == x;
                    assert(p[k] == x);
                }
            }
        }
    }
}

/// Each fan-out of the handler reaches every member of its member list and
/// no one else, and each of them once: the recipients are the list's
/// members without repetition.
pub proof fn fan_out_reaches_each_member_once(members: Seq<u128>)
    ensures
        dedup(members).no_duplicates(),
        dedup(members).to_set() == members.to_set(),
{
    lemma_dedup_members(members);
    assert(dedup(members).to_set() =~= members.to_set());
}

/// A view of a view-once message that nobody saved, once recorded, notifies
/// the sender, soft-deletes the message, and sends `message_expired` to every
/// member of the room exactly once; had the viewer saved it, the run ends
/// after the sender's notice and nothing is deleted.
pub proof fn view_once_deletion_respects_save(
    user: u128,
    message_id: u128,
    now: i64,
    viewed_at: String,
    sender_id: u128,
    chat_room_id: u128,
    offline: Vec<u128>,
    members: Vec<u128>,
    saved: bool,
    t0: Stage, a0: Action, t1: Stage, a1: Action, t2: Stage, a2: Action, t3: Stage, a3: Action,
    t4: Stage, a4: Action, t5: Stage, a5: Action, t6: Stage, a6: Action,
)
    requires
        starts(user, WsMessage::MarkViewed { message_id }, now, t0, a0),
        resumes(user, t0, StoreReply::Recorded(Some(viewed_at)), t1, a1),
        resumes(user, t1, StoreReply::MessageInfo { sender_id, chat_room_id, view_once: true }, t2, a2),
        resumes(user, t2, StoreReply::Delivered { offline }, t3, a3),
        resumes(user, t3, StoreReply::Saved(saved), t4, a4),
        resumes(user, t4, StoreReply::Done, t5, a5),
        resumes(user, t5, StoreReply::Members(members), t6, a6),
    ensures
        a0 == Action::Store(StoreRequest::InsertView { message_id, user_id: user }),
        a1 == Action::Store(StoreRequest::FetchMessage { message_id }),
        delivers(a2, seq![sender_id], WsMessage::MessageViewed { message_id, user_id: user, viewed_at }),
        a3 == Action::Store(StoreRequest::CheckSaved { message_id, user_id: user }),
        saved ==> ends(t4, a4),
        !saved ==> a4 == Action::Store(StoreRequest::SoftDelete { message_id }),
        !saved ==> a5 == Action::Store(StoreRequest::FetchMembers { chat_room_id }),
        !saved ==> delivers(a6, dedup(members@), WsMessage::MessageExpired { message_id }),
        dedup(members@).no_duplicates(),
        dedup(members@).to_set() == members@.to_set(),
{
    fan_out_reaches_each_member_once(members@);
}

/// A receipt that the store reports as already present ends the run at
/// once: no error and no second notification.
pub proof fn duplicate_receipt_is_silent(user: u128, msg: WsMessage, now: i64, t0: Stage, a0: Action, t1: Stage, a1: Action)
    requires
        msg is MarkRead || msg is MarkViewed,
        starts(user, msg, now, t0, a0),
        resumes(user, t0, StoreReply::Recorded(None), t1, a1),
    ensures
        ends(t1, a1),
{
}

/// A read recorded for the first time resets the reader's unread counter of
/// the message's room before the sender hears of it.
pub proof fn first_read_clears_unread(
    user: u128,
    message_id: u128,
    now: i64,
    read_at: String,
    sender_id: u128,
    chat_room_id: u128,
    view_once: bool,
    t0: Stage, a0: Action, t1: Stage, a1: Action, t2: Stage, a2: Action, t3: Stage, a3: Action,
)
    requires
        starts(user, WsMessage::MarkRead { message_id }, now, t0, a0),
        resumes(user, t0, StoreReply::Recorded(Some(read_at)), t1, a1),
        resumes(user, t1, StoreReply::MessageInfo { sender_id, chat_room_id, view_once }, t2, a2),
        resumes(user, t2, StoreReply::Done, t3, a3),
    ensures
        a0 == Action::Store(StoreRequest::InsertRead { message_id, user_id: user }),
        a2 == Action::Store(StoreRequest::ClearUnread { user_id: user, chat_room_id }),
        delivers(a3, seq![sender_id], WsMessage::MessageRead { message_id, user_id: user, read_at }),
{
}

} // verus!
