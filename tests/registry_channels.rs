use ephemeral_chat::presence::{presence_key, PresenceCommand};
use ephemeral_chat::registry::{ConnectionRegistry, RouteOutcome};

#[test]
fn second_registration_reuses_the_channel() {
    let mut reg = ConnectionRegistry::new();
    let (tx1, created1) = reg.register(7);
    let (tx2, created2) = reg.register(7);
    assert!(created1);
    assert!(!created2);
    assert!(tx1.same_channel(&tx2));
    let mut rx_a = tx1.subscribe();
    let mut rx_b = tx2.subscribe();
    assert_eq!(reg.route(7, "ping".to_string()), RouteOutcome::Delivered);
    assert_eq!(rx_a.try_recv().unwrap(), "ping");
    assert_eq!(rx_b.try_recv().unwrap(), "ping");
}

#[test]
fn route_without_entry_reports_not_connected() {
    let reg = ConnectionRegistry::new();
    assert!(!reg.is_connected(1));
    assert_eq!(reg.route(1, "x".to_string()), RouteOutcome::NotConnected);
}

#[test]
fn route_without_subscriber_is_dropped() {
    let mut reg = ConnectionRegistry::new();
    let _ = reg.register(2);
    assert_eq!(reg.route(2, "x".to_string()), RouteOutcome::NoSubscriber);
}

#[test]
fn unregister_is_safe_twice() {
    let mut reg = ConnectionRegistry::new();
    let _ = reg.register(3);
    reg.unregister(3);
    reg.unregister(3);
    assert!(!reg.is_connected(3));
    assert_eq!(reg.route(3, "x".to_string()), RouteOutcome::NotConnected);
}

#[test]
fn fan_out_returns_members_without_channel() {
    let mut reg = ConnectionRegistry::new();
    let (tx, _) = reg.register(1);
    let mut rx = tx.subscribe();
    let offline = reg.fan_out(&vec![1, 2, 3], &"evt".to_string());
    assert_eq!(offline, vec![2, 3]);
    assert_eq!(rx.try_recv().unwrap(), "evt");
    assert!(rx.try_recv().is_err());
}

#[test]
fn connect_and_disconnect_toggle_presence() {
    let mut reg = ConnectionRegistry::new();
    let (_tx, online) = reg.connect(11);
    assert!(reg.is_connected(11));
    match online {
        PresenceCommand::SetPresence { key, user_id, online, .. } => {
            assert_eq!(key, presence_key(11));
            assert_eq!(user_id, 11);
            assert!(online);
        }
        _ => panic!("wrong command"),
    }
    match reg.disconnect(11) {
        PresenceCommand::SetPresence { online, .. } => assert!(!online),
        _ => panic!("wrong command"),
    }
    assert!(!reg.is_connected(11));
}

#[test]
fn second_connection_listens_on_the_registered_channel() {
    let mut reg = ConnectionRegistry::new();
    let (first, _) = reg.connect(21);
    let (second, _) = reg.connect(21);
    assert!(first.same_channel(&second));
    let mut rx_first = first.subscribe();
    let mut rx_second = second.subscribe();
    assert_eq!(reg.fan_out(&vec![21], &"hello".to_string()), Vec::<u128>::new());
    assert_eq!(rx_first.try_recv().unwrap(), "hello");
    assert_eq!(rx_second.try_recv().unwrap(), "hello");
}
