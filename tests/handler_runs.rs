use ephemeral_chat::handler::{
    distinct, reject_frame, resume, start, Action, Stage, StoreReply, StoreRequest,
};
use ephemeral_chat::protocol::{expiry_after, WsMessage};

const A: u128 = 0xA;
const B: u128 = 0xB;
const ROOM: u128 = 0x100;
const MSG: u128 = 0x200;

fn send_text(ttl: Option<i64>) -> WsMessage {
    WsMessage::SendMessage {
        chat_room_id: ROOM,
        content: Some("hi".to_string()),
        message_type: "text".to_string(),
        media_url: None,
        view_once: false,
        expires_in_seconds: ttl,
    }
}

#[test]
fn send_message_with_ttl_fans_out_to_both_members() {
    let now = 1_700_000_000;
    let (s, a) = start(A, send_text(Some(5)), now);
    match &a {
        Action::Store(StoreRequest::InsertMessage { chat_room_id, sender_id, expires_at, content, .. }) => {
            assert_eq!(*chat_room_id, ROOM);
            assert_eq!(*sender_id, A);
            assert_eq!(*expires_at, Some(now + 5));
            assert_eq!(content.as_deref(), Some("hi"));
        }
        other => panic!("unexpected {:?}", other),
    }
    let (s, a) = resume(A, s, StoreReply::Inserted { id: MSG, created_at: "t0".to_string() });
    assert_eq!(a, Action::Store(StoreRequest::FetchUsername { user_id: A }));
    let (s, a) = resume(A, s, StoreReply::Username("alice".to_string()));
    assert_eq!(a, Action::Store(StoreRequest::FetchMembers { chat_room_id: ROOM }));
    let (s, a) = resume(A, s, StoreReply::Members(vec![A, B]));
    match &a {
        Action::Deliver { recipients, event } => {
            assert_eq!(recipients, &vec![A, B]);
            assert_eq!(
                event,
                &WsMessage::NewMessage {
                    id: MSG,
                    chat_room_id: ROOM,
                    sender_id: A,
                    sender_username: "alice".to_string(),
                    message_type: "text".to_string(),
                    content: Some("hi".to_string()),
                    media_url: None,
                    media_thumbnail_url: None,
                    view_once: false,
                    created_at: "t0".to_string(),
                }
            );
        }
        other => panic!("unexpected {:?}", other),
    }
    let (s, a) = resume(A, s, StoreReply::Delivered { offline: vec![] });
    assert_eq!(s, Stage::Idle);
    assert_eq!(a, Action::Finished);
}

#[test]
fn offline_member_gets_unread_increment() {
    let (s, _) = start(A, send_text(None), 10);
    let (s, _) = resume(A, s, StoreReply::Inserted { id: MSG, created_at: "t".to_string() });
    let (s, _) = resume(A, s, StoreReply::Username("alice".to_string()));
    let (s, _) = resume(A, s, StoreReply::Members(vec![A, B]));
    let (s, a) = resume(A, s, StoreReply::Delivered { offline: vec![B] });
    assert_eq!(a, Action::Store(StoreRequest::IncrementUnread { user_ids: vec![B], chat_room_id: ROOM }));
    let (s, a) = resume(A, s, StoreReply::Done);
    assert_eq!((s, a), (Stage::Idle, Action::Finished));
}

#[test]
fn failed_insert_ends_run_without_fan_out() {
    let (s, _) = start(A, send_text(None), 10);
    let (s, a) = resume(A, s, StoreReply::Failed);
    assert_eq!((s, a), (Stage::Idle, Action::Finished));
}

#[test]
fn typing_start_and_stop_reach_all_members() {
    let (s, a) = start(B, WsMessage::TypingStart { chat_room_id: ROOM }, 0);
    assert_eq!(a, Action::Store(StoreRequest::SetTyping { user_id: B, chat_room_id: ROOM }));
    let (s, _) = resume(B, s, StoreReply::Done);
    let (s, _) = resume(B, s, StoreReply::Username("bob".to_string()));
    let (_, a) = resume(B, s, StoreReply::Members(vec![A, B, A]));
    assert_eq!(
        a,
        Action::Deliver {
            recipients: vec![A, B],
            event: WsMessage::UserTyping { chat_room_id: ROOM, user_id: B, username: "bob".to_string() },
        }
    );
    let (s, a) = start(B, WsMessage::TypingStop { chat_room_id: ROOM }, 0);
    assert_eq!(a, Action::Store(StoreRequest::ClearTyping { user_id: B, chat_room_id: ROOM }));
    let (s, a) = resume(B, s, StoreReply::Done);
    assert_eq!(a, Action::Store(StoreRequest::FetchMembers { chat_room_id: ROOM }));
    let (_, a) = resume(B, s, StoreReply::Members(vec![A, B]));
    assert_eq!(
        a,
        Action::Deliver { recipients: vec![A, B], event: WsMessage::UserStoppedTyping { chat_room_id: ROOM, user_id: B } }
    );
}

#[test]
fn first_read_clears_counter_and_notifies_sender() {
    let (s, a) = start(B, WsMessage::MarkRead { message_id: MSG }, 0);
    assert_eq!(a, Action::Store(StoreRequest::InsertRead { message_id: MSG, user_id: B }));
    let (s, a) = resume(B, s, StoreReply::Recorded(Some("r1".to_string())));
    assert_eq!(a, Action::Store(StoreRequest::FetchMessage { message_id: MSG }));
    let (s, a) = resume(B, s, StoreReply::MessageInfo { sender_id: A, chat_room_id: ROOM, view_once: false });
    assert_eq!(a, Action::Store(StoreRequest::ClearUnread { user_id: B, chat_room_id: ROOM }));
    let (_, a) = resume(B, s, StoreReply::Done);
    assert_eq!(
        a,
        Action::Deliver {
            recipients: vec![A],
            event: WsMessage::MessageRead { message_id: MSG, user_id: B, read_at: "r1".to_string() },
        }
    );
}

#[test]
fn duplicate_read_is_a_silent_no_op() {
    let (s, _) = start(B, WsMessage::MarkRead { message_id: MSG }, 0);
    let (s, a) = resume(B, s, StoreReply::Recorded(None));
    assert_eq!((s, a), (Stage::Idle, Action::Finished));
}

#[test]
fn duplicate_view_is_a_silent_no_op() {
    let (s, _) = start(B, WsMessage::MarkViewed { message_id: MSG }, 0);
    let (s, a) = resume(B, s, StoreReply::Recorded(None));
    assert_eq!((s, a), (Stage::Idle, Action::Finished));
}

fn view_until_save_check() -> Stage {
    let (s, a) = start(B, WsMessage::MarkViewed { message_id: MSG }, 0);
    assert_eq!(a, Action::Store(StoreRequest::InsertView { message_id: MSG, user_id: B }));
    let (s, _) = resume(B, s, StoreReply::Recorded(Some("v1".to_string())));
    let (s, a) = resume(B, s, StoreReply::MessageInfo { sender_id: A, chat_room_id: ROOM, view_once: true });
    assert_eq!(
        a,
        Action::Deliver {
            recipients: vec![A],
            event: WsMessage::MessageViewed { message_id: MSG, user_id: B, viewed_at: "v1".to_string() },
        }
    );
    let (s, a) = resume(B, s, StoreReply::Delivered { offline: vec![] });
    assert_eq!(a, Action::Store(StoreRequest::CheckSaved { message_id: MSG, user_id: B }));
    s
}

#[test]
fn view_once_image_is_deleted_and_expiry_reaches_both() {
    let s = view_until_save_check();
    let (s, a) = resume(B, s, StoreReply::Saved(false));
    assert_eq!(a, Action::Store(StoreRequest::SoftDelete { message_id: MSG }));
    let (s, a) = resume(B, s, StoreReply::Done);
    assert_eq!(a, Action::Store(StoreRequest::FetchMembers { chat_room_id: ROOM }));
    let (s, a) = resume(B, s, StoreReply::Members(vec![A, B]));
    assert_eq!(a, Action::Deliver { recipients: vec![A, B], event: WsMessage::MessageExpired { message_id: MSG } });
    let (s, a) = resume(B, s, StoreReply::Delivered { offline: vec![] });
    assert_eq!((s, a), (Stage::Idle, Action::Finished));
}

#[test]
fn saved_view_once_message_is_kept() {
    let s = view_until_save_check();
    let (s, a) = resume(B, s, StoreReply::Saved(true));
    assert_eq!((s, a), (Stage::Idle, Action::Finished));
}

#[test]
fn ordinary_message_view_notifies_sender_only() {
    let (s, _) = start(B, WsMessage::MarkViewed { message_id: MSG }, 0);
    let (s, _) = resume(B, s, StoreReply::Recorded(Some("v".to_string())));
    let (s, _) = resume(B, s, StoreReply::MessageInfo { sender_id: A, chat_room_id: ROOM, view_once: false });
    let (s, a) = resume(B, s, StoreReply::Delivered { offline: vec![A] });
    assert_eq!((s, a), (Stage::Idle, Action::Finished));
}

#[test]
fn outbound_kind_from_client_is_answered_with_error() {
    let (s, a) = start(A, WsMessage::MessageExpired { message_id: MSG }, 0);
    assert_eq!(s, Stage::AwaitDelivery);
    match a {
        Action::Deliver { recipients, event: WsMessage::Error { .. } } => assert_eq!(recipients, vec![A]),
        other => panic!("unexpected {:?}", other),
    }
}

#[test]
fn malformed_frame_is_answered_with_error() {
    let (s, a) = reject_frame(B);
    assert_eq!(s, Stage::AwaitDelivery);
    match a {
        Action::Deliver { recipients, event: WsMessage::Error { message } } => {
            assert_eq!(recipients, vec![B]);
            assert!(!message.is_empty());
        }
        other => panic!("unexpected {:?}", other),
    }
}

#[test]
fn expiry_out_of_range_is_answered_with_error() {
    let (_, a) = start(A, send_text(Some(i64::MAX)), 10);
    assert!(matches!(a, Action::Deliver { event: WsMessage::Error { .. }, .. }));
}

#[test]
fn expiry_arithmetic() {
    assert_eq!(expiry_after(100, None), Ok(None));
    assert_eq!(expiry_after(100, Some(5)), Ok(Some(105)));
    assert_eq!(expiry_after(100, Some(-5)), Ok(Some(95)));
    assert_eq!(expiry_after(i64::MAX, Some(1)), Err(()));
    assert_eq!(expiry_after(i64::MIN, Some(-1)), Err(()));
    assert_eq!(expiry_after(i64::MAX, Some(0)), Ok(Some(i64::MAX)));
}

#[test]
fn distinct_keeps_first_occurrences() {
    assert_eq!(distinct(&vec![3, 1, 3, 2, 1]), vec![3, 1, 2]);
    assert_eq!(distinct(&vec![]), Vec::<u128>::new());
}

#[test]
fn inbound_kinds() {
    assert!(WsMessage::TypingStart { chat_room_id: 1 }.is_inbound());
    assert!(!WsMessage::MessageExpired { message_id: 1 }.is_inbound());
}
