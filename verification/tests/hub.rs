use device_hub::handlers::{
    connect_client, handle_client, handle_device, register_device, ClientSession, DeviceSession,
    SessionAction, SessionEvent,
};
use device_hub::models::{AppState, DeviceStatus, WsMessage};
use device_hub::router::{
    deliver, make_invalid_registration_notice, make_not_found_notice, plan_command,
    route_command, route_status, Delivery, Routed,
};
use device_hub::utils::{
    check_device_statuses, cleanup_client_connection, cleanup_device_connection,
    evict_unresponsive, probe_devices, touch_device,
};
use tokio::sync::broadcast::error::TryRecvError;
use tokio::sync::broadcast::Receiver;

fn text(event: &str) -> SessionEvent {
    SessionEvent::Text(event.to_string())
}

/// Takes a device through registration and hands out its session and its
/// subscription.
fn registered(state: &mut AppState, id: &str) -> (DeviceSession, Receiver<WsMessage>) {
    let mut session = DeviceSession::new();
    let registration = WsMessage::DeviceRegistration { device_id: id.to_string() }.encode();
    let step = handle_device(&mut session, state, SessionEvent::Text(registration));
    assert!(matches!(step.action, SessionAction::Send(_)));
    let step = handle_device(&mut session, state, SessionEvent::Sent);
    match step.action {
        SessionAction::Relay(subscription) => (session, subscription),
        _ => panic!("the device was not registered"),
    }
}

fn nothing_waits(subscription: &mut Receiver<WsMessage>) -> bool {
    matches!(subscription.try_recv(), Err(TryRecvError::Empty))
}

#[test]
fn new_state_is_empty() {
    let state = AppState::new();
    assert_eq!(state.devices.len(), 0);
    assert_eq!(state.clients.len(), 0);
    assert!(state.status_of("lamp1").is_none());
}

#[test]
fn command_for_a_missing_device_is_answered_to_its_sender_only() {
    let mut state = AppState::new();
    let (mut sender, mut inbox) = connect_client(&mut state);
    let (_other, mut other_inbox) = connect_client(&mut state);
    let command = r#"{"type":"set_brightness","device_id":"missing","brightness":100}"#;
    let step = handle_client(&mut sender, &mut state, text(command));
    assert!(matches!(step.action, SessionAction::Wait));
    assert_eq!(step.routed, Routed::Rejected { notified: true });
    match inbox.try_recv() {
        Ok(WsMessage::Error { message, code }) => {
            assert_eq!(message, "Device not found");
            assert_eq!(code, 404);
        }
        other => panic!("the sender got {:?}", other),
    }
    assert!(nothing_waits(&mut inbox));
    assert!(nothing_waits(&mut other_inbox));
    assert_eq!(state.devices.len(), 0);
    assert_eq!(state.clients.len(), 2);
}

#[test]
fn command_for_a_missing_device_leaves_the_other_devices_alone() {
    let mut state = AppState::new();
    let (_session, mut lamp_inbox) = registered(&mut state, "lamp1");
    let (mut sender, mut inbox) = connect_client(&mut state);
    let step = handle_client(
        &mut sender,
        &mut state,
        text(r#"{"type":"set_power","device_id":"lamp2","power":true}"#),
    );
    assert_eq!(step.routed, Routed::Rejected { notified: true });
    assert!(matches!(inbox.try_recv(), Ok(WsMessage::Error { code: 404, .. })));
    assert!(nothing_waits(&mut lamp_inbox));
    assert_eq!(state.devices.len(), 1);
    assert!(!state.status_of("lamp1").unwrap().power);
}

#[test]
fn registration_is_acknowledged_and_enters_the_device() {
    let mut state = AppState::new();
    let mut session = DeviceSession::new();
    assert!(matches!(session, DeviceSession::AwaitingRegistration));
    let step = handle_device(
        &mut session,
        &mut state,
        text(r#"{"type":"device_registration","device_id":"lamp1"}"#),
    );
    match step.action {
        SessionAction::Send(reply) => {
            assert_eq!(reply, r#"{"type":"device_registered","device_id":"lamp1"}"#)
        }
        _ => panic!("no acknowledgement"),
    }
    assert!(matches!(&session, DeviceSession::Acknowledging { device_id } if device_id == "lamp1"));
    assert_eq!(state.devices.len(), 0);
    let step = handle_device(&mut session, &mut state, SessionEvent::Sent);
    assert!(matches!(step.action, SessionAction::Relay(_)));
    assert!(matches!(&session, DeviceSession::Relaying { device_id } if device_id == "lamp1"));
    assert_eq!(state.devices.len(), 1);
    let status = state.status_of("lamp1").expect("lamp1 is registered");
    assert_eq!(status.device_id, "lamp1");
    assert!(!status.power);
    assert_eq!(status.brightness, 0);
    assert_eq!(status.color, [0, 0, 0]);
    assert!(!status.auto_brightness);
    assert_eq!(status.pos, [0, 0, 0, 0]);
    assert!(!status.auto_pos);
}

#[test]
fn registration_is_dropped_when_the_acknowledgement_cannot_be_written() {
    let mut state = AppState::new();
    let mut session = DeviceSession::new();
    handle_device(
        &mut session,
        &mut state,
        text(r#"{"type":"device_registration","device_id":"lamp1"}"#),
    );
    let step = handle_device(&mut session, &mut state, SessionEvent::Closed);
    assert!(matches!(step.action, SessionAction::Close));
    assert!(matches!(session, DeviceSession::Disconnected));
    assert_eq!(state.devices.len(), 0);
}

#[test]
fn anything_but_a_registration_is_answered_with_an_error() {
    let mut state = AppState::new();
    let mut session = DeviceSession::new();
    let step = handle_device(
        &mut session,
        &mut state,
        text(r#"{"type":"status_request","device_id":"lamp1"}"#),
    );
    match step.action {
        SessionAction::Send(reply) => {
            assert_eq!(reply, r#"{"type":"error","message":"Invalid registration","code":400}"#)
        }
        _ => panic!("no error reply"),
    }
    assert!(matches!(session, DeviceSession::AwaitingRegistration));
    let step = handle_device(&mut session, &mut state, SessionEvent::Sent);
    assert!(matches!(step.action, SessionAction::Wait));
    assert!(matches!(session, DeviceSession::AwaitingRegistration));
    assert_eq!(state.devices.len(), 0);
}

#[test]
fn a_malformed_message_before_registration_ends_the_session() {
    let mut state = AppState::new();
    let mut session = DeviceSession::new();
    let step = handle_device(&mut session, &mut state, text("{oops"));
    assert!(matches!(step.action, SessionAction::Close));
    assert!(matches!(session, DeviceSession::Disconnected));

    let mut session = DeviceSession::new();
    let step = handle_device(&mut session, &mut state, SessionEvent::Unreadable);
    assert!(matches!(step.action, SessionAction::Close));
    assert!(matches!(session, DeviceSession::Disconnected));

    let step = handle_device(&mut session, &mut state, text("{}"));
    assert!(matches!(step.action, SessionAction::Close));
    assert!(matches!(session, DeviceSession::Disconnected));
    assert_eq!(state.devices.len(), 0);
}

#[test]
fn status_update_reaches_every_client() {
    let mut state = AppState::new();
    let (mut session, _subscription) = registered(&mut state, "lamp1");
    let (first, mut first_inbox) = connect_client(&mut state);
    let (second, mut second_inbox) = connect_client(&mut state);
    let update = WsMessage::StatusUpdate(DeviceStatus {
        device_id: "lamp1".to_string(),
        power: true,
        brightness: 7,
        color: [9, 8, 7],
        auto_brightness: false,
        pos: [1, 2, 3, 4],
        auto_pos: true,
    });
    let step = handle_device(&mut session, &mut state, SessionEvent::Text(update.encode()));
    assert!(matches!(step.action, SessionAction::Wait));
    let mut reached: Vec<u128> = step.reached.iter().map(|r| r.0).collect();
    reached.sort();
    let mut expected = vec![first.client_id, second.client_id];
    expected.sort();
    assert_eq!(reached, expected);
    assert!(step.reached.iter().all(|r| r.1));
    for inbox in [&mut first_inbox, &mut second_inbox] {
        match inbox.try_recv() {
            Ok(WsMessage::StatusUpdate(status)) => {
                assert_eq!(status.device_id, "lamp1");
                assert!(status.power);
                assert_eq!(status.brightness, 7);
                assert_eq!(status.color, [9, 8, 7]);
                assert_eq!(status.pos, [1, 2, 3, 4]);
                assert!(status.auto_pos);
            }
            other => panic!("a client got {:?}", other),
        }
        assert!(nothing_waits(inbox));
    }
    assert!(!state.status_of("lamp1").unwrap().power);
}

#[test]
fn a_client_that_left_does_not_hold_the_others_up() {
    let mut state = AppState::new();
    let (_gone, gone_inbox) = connect_client(&mut state);
    let (_here, mut inbox) = connect_client(&mut state);
    drop(gone_inbox);
    let report = route_status(&state, &DeviceStatus::initial("lamp1".to_string()));
    assert_eq!(report.len(), 2);
    assert_eq!(report.iter().filter(|r| r.1).count(), 1);
    assert!(matches!(inbox.try_recv(), Ok(WsMessage::StatusUpdate(_))));
}

#[test]
fn what_a_relaying_device_sends_is_not_answered() {
    let mut state = AppState::new();
    let (mut session, _subscription) = registered(&mut state, "lamp1");
    let (_client, mut inbox) = connect_client(&mut state);
    for event in [
        text("{oops"),
        text(r#"{"type":"device_registration","device_id":"lamp2"}"#),
        text(r#"{"type":"set_power","device_id":"lamp1","power":true}"#),
        SessionEvent::Unreadable,
        SessionEvent::Sent,
    ] {
        let step = handle_device(&mut session, &mut state, event);
        assert!(matches!(step.action, SessionAction::Wait));
        assert!(step.reached.is_empty());
    }
    assert!(matches!(&session, DeviceSession::Relaying { device_id } if device_id == "lamp1"));
    assert!(nothing_waits(&mut inbox));
    assert_eq!(state.devices.len(), 1);
}

#[test]
fn a_command_is_passed_on_to_its_device() {
    let mut state = AppState::new();
    let (mut session, mut subscription) = registered(&mut state, "lamp1");
    let (mut client, mut inbox) = connect_client(&mut state);
    let step = handle_client(
        &mut client,
        &mut state,
        text(r#"{"type":"set_color","device_id":"lamp1","color":[10,20,30]}"#),
    );
    assert_eq!(step.routed, Routed::Forwarded { delivered: true });
    assert!(nothing_waits(&mut inbox));
    let command = subscription.try_recv().expect("the command is on the device's channel");
    assert!(nothing_waits(&mut subscription));
    let step = handle_device(&mut session, &mut state, SessionEvent::Outbound(command));
    match step.action {
        SessionAction::Send(frame) => {
            assert_eq!(frame, r#"{"type":"set_color","device_id":"lamp1","color":[10,20,30]}"#)
        }
        _ => panic!("the command was not written to the device"),
    }
}

#[test]
fn commands_arrive_in_the_order_sent() {
    let mut state = AppState::new();
    let (_session, mut subscription) = registered(&mut state, "lamp1");
    let (mut client, _inbox) = connect_client(&mut state);
    for level in [1u8, 2, 3] {
        let command = WsMessage::SetBrightness { device_id: "lamp1".to_string(), brightness: level };
        handle_client(&mut client, &mut state, SessionEvent::Text(command.encode()));
    }
    for level in [1u8, 2, 3] {
        assert!(matches!(
            subscription.try_recv(),
            Ok(WsMessage::SetBrightness { brightness, .. }) if brightness == level
        ));
    }
}

#[test]
fn what_is_no_command_from_a_client_is_ignored() {
    let mut state = AppState::new();
    let (_session, mut subscription) = registered(&mut state, "lamp1");
    let (mut client, mut inbox) = connect_client(&mut state);
    for event in [
        text("{oops"),
        text(r#"{"type":"status_request","device_id":"lamp1"}"#),
        text(r#"{"type":"device_registration","device_id":"lamp1"}"#),
        text(r#"{"type":"error","message":"m","code":1}"#),
        SessionEvent::Unreadable,
        SessionEvent::Sent,
    ] {
        let step = handle_client(&mut client, &mut state, event);
        assert!(matches!(step.action, SessionAction::Wait));
        assert_eq!(step.routed, Routed::Ignored);
    }
    assert!(client.connected);
    assert!(nothing_waits(&mut subscription));
    assert!(nothing_waits(&mut inbox));
}

#[test]
fn a_client_is_sent_what_arrives_on_its_channel() {
    let mut state = AppState::new();
    let (mut client, _inbox) = connect_client(&mut state);
    let notice = make_not_found_notice();
    let step = handle_client(&mut client, &mut state, SessionEvent::Outbound(notice));
    match step.action {
        SessionAction::Send(frame) => {
            assert_eq!(frame, r#"{"type":"error","message":"Device not found","code":404}"#)
        }
        _ => panic!("nothing was written to the client"),
    }
}

#[test]
fn a_client_that_disconnects_leaves_the_registry() {
    let mut state = AppState::new();
    let (mut client, _inbox) = connect_client(&mut state);
    let (other, _other_inbox) = connect_client(&mut state);
    assert_ne!(client.client_id, other.client_id);
    assert!(state.clients.contains_key(&client.client_id));
    let step = handle_client(&mut client, &mut state, SessionEvent::Closed);
    assert!(matches!(step.action, SessionAction::Close));
    assert!(!client.connected);
    assert!(!state.clients.contains_key(&client.client_id));
    assert!(state.clients.contains_key(&other.client_id));
    let step = handle_client(&mut client, &mut state, text(r#"{"type":"set_power","device_id":"x","power":true}"#));
    assert!(matches!(step.action, SessionAction::Close));
    assert_eq!(step.routed, Routed::Ignored);
    cleanup_client_connection(client.client_id, &mut state);
    assert_eq!(state.clients.len(), 1);
}

#[test]
fn disconnecting_a_device_twice_is_the_same_as_once() {
    let mut state = AppState::new();
    let (mut session, _subscription) = registered(&mut state, "lamp1");
    let (_other, _other_subscription) = registered(&mut state, "lamp2");
    let step = handle_device(&mut session, &mut state, SessionEvent::Closed);
    assert!(matches!(step.action, SessionAction::Close));
    assert!(matches!(session, DeviceSession::Disconnected));
    assert!(state.status_of("lamp1").is_none());
    assert_eq!(state.devices.len(), 1);
    cleanup_device_connection("lamp1", &mut state);
    cleanup_device_connection("lamp1", &mut state);
    cleanup_device_connection("never", &mut state);
    assert_eq!(state.devices.len(), 1);
    assert!(state.status_of("lamp2").is_some());
    let step = handle_device(&mut session, &mut state, SessionEvent::Sent);
    assert!(matches!(step.action, SessionAction::Close));
}

#[test]
fn registering_again_replaces_the_entry() {
    let mut state = AppState::new();
    let old = register_device(&mut state, &"lamp1".to_string());
    drop(old);
    let mut fresh = register_device(&mut state, &"lamp1".to_string());
    assert_eq!(state.devices.len(), 1);
    let report = check_device_statuses(&mut state);
    assert!(report.evicted.is_empty());
    assert_eq!(report.probes, vec![("lamp1".to_string(), true)]);
    assert!(matches!(fresh.try_recv(), Ok(WsMessage::StatusRequest { .. })));
}

#[test]
fn sweep_evicts_a_device_that_nobody_listens_for() {
    let mut state = AppState::new();
    let (_live_session, mut live) = registered(&mut state, "live");
    let (_dead_session, dead) = registered(&mut state, "dead");
    let (_client, mut inbox) = connect_client(&mut state);
    drop(dead);
    let report = check_device_statuses(&mut state);
    assert_eq!(report.evicted, vec!["dead".to_string()]);
    let mut probes = report.probes;
    probes.sort();
    assert_eq!(probes, vec![("dead".to_string(), false), ("live".to_string(), true)]);
    assert!(state.status_of("dead").is_none());
    assert!(state.status_of("live").is_some());
    assert_eq!(state.devices.len(), 1);
    assert!(matches!(
        live.try_recv(),
        Ok(WsMessage::StatusRequest { device_id }) if device_id == "live"
    ));
    assert!(nothing_waits(&mut live));
    assert!(nothing_waits(&mut inbox));
    assert_eq!(state.clients.len(), 1);
    let again = check_device_statuses(&mut state);
    assert!(again.evicted.is_empty());
    assert_eq!(again.probes, vec![("live".to_string(), true)]);
    assert_eq!(state.devices.len(), 1);
}

#[test]
fn sweep_of_an_empty_registry_does_nothing() {
    let mut state = AppState::new();
    assert!(probe_devices(&state).is_empty());
    let report = check_device_statuses(&mut state);
    assert!(report.probes.is_empty());
    assert!(report.evicted.is_empty());
}

#[test]
fn probes_name_every_device_once() {
    let mut state = AppState::new();
    let (_a, _a_subscription) = registered(&mut state, "a");
    let (_b, b_subscription) = registered(&mut state, "b");
    drop(b_subscription);
    let mut probes = probe_devices(&state);
    probes.sort();
    assert_eq!(probes, vec![("a".to_string(), true), ("b".to_string(), false)]);
    assert_eq!(state.devices.len(), 2);
}

#[test]
fn eviction_goes_by_the_probes() {
    let mut state = AppState::new();
    let (_a, _a_subscription) = registered(&mut state, "a");
    let (_b, _b_subscription) = registered(&mut state, "b");
    let (_c, _c_subscription) = registered(&mut state, "c");
    let probes = vec![
        ("c".to_string(), false),
        ("a".to_string(), true),
        ("ghost".to_string(), false),
        ("b".to_string(), false),
    ];
    let evicted = evict_unresponsive(&mut state, &probes);
    assert_eq!(evicted, vec!["c".to_string(), "ghost".to_string(), "b".to_string()]);
    assert_eq!(state.devices.len(), 1);
    assert!(state.status_of("a").is_some());
}

#[test]
fn touching_a_device_keeps_its_status_and_moves_its_time() {
    let mut state = AppState::new();
    let (_session, mut subscription) = registered(&mut state, "lamp1");
    let before = state.devices.get("lamp1").unwrap().last_seen;
    let noted = touch_device(&mut state, "lamp1").expect("lamp1 is registered");
    assert!(touch_device(&mut state, "missing").is_none());
    let after = state.devices.get("lamp1").unwrap().last_seen;
    assert_eq!(after, noted);
    assert!(after >= before);
    assert!(!state.devices.contains_key("missing"));
    assert_eq!(state.devices.len(), 1);
    assert_eq!(state.status_of("lamp1").unwrap().device_id, "lamp1");
    let (mut client, _inbox) = connect_client(&mut state);
    handle_client(
        &mut client,
        &mut state,
        text(r#"{"type":"set_power","device_id":"lamp1","power":true}"#),
    );
    assert!(matches!(subscription.try_recv(), Ok(WsMessage::SetPower { power: true, .. })));
}

#[test]
fn plan_follows_the_routing_rule() {
    let mut state = AppState::new();
    let (_session, _subscription) = registered(&mut state, "lamp1");
    let known = WsMessage::SetPower { device_id: "lamp1".to_string(), power: true };
    assert!(matches!(
        plan_command(&state, known),
        Delivery::ToDevice { command: WsMessage::SetPower { power: true, .. }, .. }
    ));
    let unknown = WsMessage::SetPower { device_id: "lamp2".to_string(), power: true };
    match plan_command(&state, unknown) {
        Delivery::ToSender { notice: WsMessage::Error { message, code } } => {
            assert_eq!(message, "Device not found");
            assert_eq!(code, 404);
        }
        _ => panic!("an unknown device was not refused"),
    }
    let no_command = WsMessage::StatusRequest { device_id: "lamp1".to_string() };
    assert!(matches!(plan_command(&state, no_command), Delivery::Nothing));
}

#[test]
fn a_publish_without_a_subscriber_is_reported() {
    let mut state = AppState::new();
    let (_session, subscription) = registered(&mut state, "lamp1");
    let (client, inbox) = connect_client(&mut state);
    drop(subscription);
    let command = WsMessage::SetPower { device_id: "lamp1".to_string(), power: true };
    assert_eq!(route_command(&state, &client.tx, command), Routed::Forwarded { delivered: false });
    assert_eq!(state.devices.len(), 1);
    drop(inbox);
    let command = WsMessage::SetPower { device_id: "nobody".to_string(), power: true };
    assert_eq!(route_command(&state, &client.tx, command), Routed::Rejected { notified: false });
    assert_eq!(deliver(&client.tx, Delivery::Nothing), Routed::Ignored);
}

#[test]
fn notices_have_their_code_and_words() {
    assert!(matches!(
        make_not_found_notice(),
        WsMessage::Error { message, code: 404 } if message == "Device not found"
    ));
    assert!(matches!(
        make_invalid_registration_notice(),
        WsMessage::Error { message, code: 400 } if message == "Invalid registration"
    ));
}

#[test]
fn a_full_channel_drops_its_oldest_message() {
    let mut state = AppState::new();
    let (_session, mut subscription) = registered(&mut state, "lamp1");
    let (mut client, _inbox) = connect_client(&mut state);
    assert_eq!(device_hub::channel::CHANNEL_CAPACITY, 100);
    let held = device_hub::channel::CHANNEL_CAPACITY.next_power_of_two();
    for level in 0..=held {
        let command =
            WsMessage::SetBrightness { device_id: "lamp1".to_string(), brightness: (level % 256) as u8 };
        let step = handle_client(&mut client, &mut state, SessionEvent::Text(command.encode()));
        assert_eq!(step.routed, Routed::Forwarded { delivered: true });
    }
    assert!(matches!(subscription.try_recv(), Err(TryRecvError::Lagged(1))));
    assert!(matches!(
        subscription.try_recv(),
        Ok(WsMessage::SetBrightness { brightness: 1, .. })
    ));
}

#[test]
fn client_session_fields_can_be_read() {
    let mut state = AppState::new();
    let (session, _inbox) = connect_client(&mut state);
    let ClientSession { client_id, tx, connected } = session;
    assert!(connected);
    assert!(state.clients.contains_key(&client_id));
    assert_eq!(tx.receiver_count(), 1);
    assert_eq!(client_id >> 76 & 0xf, 4);
}
