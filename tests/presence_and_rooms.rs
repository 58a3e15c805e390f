use ephemeral_chat::admin::{page_window, AnalyticsQuery, UserListQuery};
use ephemeral_chat::chat::{
    direct_chat_lookup, display_name, message_page_limit, room_members, room_name, ChatMemberResponse,
    CreateChatRequest,
};
use ephemeral_chat::presence::{
    clear_unread, increment_unread, presence_key, set_typing, set_user_offline, set_user_online,
    typing_pattern, typing_users_from_keys, unread_key, PresenceCommand, OFFLINE_TTL_SECS, ONLINE_TTL_SECS,
    TYPING_TTL_SECS,
};
use uuid::Uuid;

const U: u128 = 0x67e55044_10b1_426f_9247_bb680e5fe0c8;
const R: u128 = 0x0000_0001_0000_0000_0000_0000_0000_0002;

#[test]
fn keys_use_hyphenated_identifiers() {
    assert_eq!(presence_key(U), "presence:user:67e55044-10b1-426f-9247-bb680e5fe0c8");
    assert_eq!(
        unread_key(U, R),
        format!("unread:{}:{}", Uuid::from_u128(U), Uuid::from_u128(R))
    );
    assert_eq!(typing_pattern(R), format!("typing:{}:*", Uuid::from_u128(R)));
}

#[test]
fn presence_commands_carry_lifetimes() {
    match set_user_online(U) {
        PresenceCommand::SetPresence { online, ttl_secs, user_id, .. } => {
            assert!(online);
            assert_eq!(ttl_secs, ONLINE_TTL_SECS);
            assert_eq!(user_id, U);
        }
        _ => panic!("wrong command"),
    }
    match set_user_offline(U) {
        PresenceCommand::SetPresence { online, ttl_secs, .. } => {
            assert!(!online);
            assert_eq!(ttl_secs, OFFLINE_TTL_SECS);
        }
        _ => panic!("wrong command"),
    }
    match set_typing(U, R) {
        PresenceCommand::SetFor { key, value, ttl_secs } => {
            assert_eq!(key, format!("typing:{}:{}", Uuid::from_u128(R), Uuid::from_u128(U)));
            assert_eq!(value, "1");
            assert_eq!(ttl_secs, TYPING_TTL_SECS);
        }
        _ => panic!("wrong command"),
    }
    assert!(matches!(increment_unread(U, R), PresenceCommand::Increment { .. }));
    assert!(matches!(clear_unread(U, R), PresenceCommand::Delete { .. }));
}

#[test]
fn typing_keys_name_their_users() {
    let keys = vec![
        format!("typing:{}:{}", Uuid::from_u128(R), Uuid::from_u128(U)),
        "typing:broken".to_string(),
        format!("typing:{}:not-a-uuid", Uuid::from_u128(R)),
    ];
    assert_eq!(typing_users_from_keys(&keys), vec![U]);
}

#[test]
fn direct_chat_lookup_is_order_free() {
    let ab = CreateChatRequest { creator_id: 5, is_group: false, name: None, member_ids: vec![9] };
    let ba = CreateChatRequest { creator_id: 9, is_group: false, name: None, member_ids: vec![5] };
    assert_eq!(direct_chat_lookup(&ab), Some((5, 9)));
    assert_eq!(direct_chat_lookup(&ba), Some((5, 9)));
    let group = CreateChatRequest { creator_id: 5, is_group: true, name: Some("g".to_string()), member_ids: vec![9] };
    assert_eq!(direct_chat_lookup(&group), None);
    assert_eq!(room_name(&group), Some("g".to_string()));
    let named_direct = CreateChatRequest { creator_id: 5, is_group: false, name: Some("x".to_string()), member_ids: vec![9] };
    assert_eq!(room_name(&named_direct), None);
    assert_eq!(room_members(&group), vec![9, 5]);
}

#[test]
fn direct_room_is_named_after_the_other_member() {
    let members = vec![
        ChatMemberResponse { user_id: 1, username: "ann".to_string(), joined_at: 0 },
        ChatMemberResponse { user_id: 2, username: "ben".to_string(), joined_at: 0 },
    ];
    assert_eq!(display_name(false, None, &members, 1), Some("ben".to_string()));
    assert_eq!(display_name(false, None, &members, 2), Some("ann".to_string()));
    assert_eq!(display_name(true, Some("team".to_string()), &members, 1), Some("team".to_string()));
}

#[test]
fn paging_rules() {
    assert_eq!(message_page_limit(None), 50);
    assert_eq!(message_page_limit(Some(500)), 100);
    assert_eq!(message_page_limit(Some(7)), 7);
    assert_eq!(page_window(None, None), Some((50, 0)));
    assert_eq!(page_window(Some(3), Some(10)), Some((10, 20)));
    assert_eq!(page_window(Some(0), Some(1000)), Some((100, 0)));
    assert_eq!(page_window(Some(i64::MAX), Some(100)), None);
    let q = UserListQuery { page: Some(2), per_page: Some(0), search: None, role: None };
    assert_eq!(q.window(), Some((1, 1)));
    assert_eq!(AnalyticsQuery { days: None }.window_days(), 30);
    assert_eq!(AnalyticsQuery { days: Some(1000) }.window_days(), 365);
    assert_eq!(AnalyticsQuery { days: Some(-3) }.window_days(), 1);
}

#[test]
fn default_limits() {
    assert_eq!(ephemeral_chat::algorithm::default_limit(), 20);
    assert_eq!(ephemeral_chat::discovery::default_limit(), 20);
    assert_eq!(ephemeral_chat::notifications::default_limit(), 50);
    assert_eq!(ephemeral_chat::algorithm::FeedQuery { limit: 80, offset: 0 }.page_limit(), 50);
    assert_eq!(ephemeral_chat::discovery::page_limit(10), 10);
    assert_eq!(ephemeral_chat::notifications::LimitQuery { limit: 150 }.page_limit(), 100);
}
