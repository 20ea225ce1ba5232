use file_share::clock::current_millis;
use file_share::connection::{
    FileTransferWs, HeartbeatStep, SessionAction, SessionState, WsFrame,
};
use file_share::device::DeviceInfo;
use file_share::discovery_service::{DiscoveryService, PRESENCE_TIMEOUT_MILLIS};
use file_share::message::FileTransferMessage;

#[test]
fn test_device_info_creation() {
    let device = DeviceInfo {
        id: "test-id".to_string(),
        name: "test-device".to_string(),
        last_seen: chrono::Utc::now().timestamp_millis(),
    };

    assert_eq!(device.id, "test-id");
    assert_eq!(device.name, "test-device");
}

#[test]
fn test_discovery_service() {
    let mut service = DiscoveryService::new();

    // Test device registration
    service.register_device("test-id".to_string(), "test-device".to_string());

    let devices = service.get_nearby_devices();
    assert_eq!(devices.len(), 1);
    assert_eq!(devices[0].name, "test-device");

    // Test device removal
    service.remove_device("test-id");
    let devices = service.get_nearby_devices();
    assert_eq!(devices.len(), 0);
}

#[test]
fn test_presence_staleness() {
    let mut service = DiscoveryService::new();
    service.register_device_at("stale".to_string(), "old-device".to_string(), 0);
    service.register_device_at("fresh".to_string(), "new-device".to_string(), 1_000);

    // At 30s the device stamped at the epoch has aged exactly the timeout
    // and is absent; the one stamped one second later is 29s old and
    // present.
    let now = PRESENCE_TIMEOUT_MILLIS;
    let devices = service.get_nearby_devices_at(now);
    assert_eq!(devices.len(), 1);
    assert_eq!(devices[0].name, "new-device");

    // A touch brings the stale device back.
    service.update_device_timestamp_at("stale", now);
    let devices = service.get_nearby_devices_at(now);
    assert_eq!(devices.len(), 2);
}

#[test]
fn test_heartbeat_timeout() {
    let mut registry = DiscoveryService::new();
    let mut ws = FileTransferWs::new("phone-A".to_string());
    ws.started(&mut registry);
    assert!(matches!(ws.state, SessionState::Active));

    // Within the timeout the session just probes.
    let step = ws.heartbeat(&mut registry, ws.hb + 9_000);
    assert_eq!(step, HeartbeatStep::SendPing);
    assert!(matches!(ws.state, SessionState::Active));

    // Past the timeout the session is deregistered and closed, with no
    // explicit close message.
    let now = ws.hb + 11_000;
    let step = ws.heartbeat(&mut registry, now);
    assert_eq!(step, HeartbeatStep::Disconnect);
    assert!(matches!(ws.state, SessionState::Closing));
    ws.stopped(&mut registry);
    assert!(matches!(ws.state, SessionState::Closed));

    // A concurrent session's roster query no longer lists "phone-A".
    let roster = registry.get_nearby_devices_at(now);
    assert!(roster.iter().all(|d| d.name != "phone-A"));
}

#[test]
fn test_discovery_query_roster() {
    let mut registry = DiscoveryService::new();
    let mut a = FileTransferWs::new("A".to_string());
    let mut b = FileTransferWs::new("B".to_string());
    a.started(&mut registry);
    b.started(&mut registry);

    let now = current_millis();
    let frame = WsFrame::Text {
        raw: "{\"type\":\"DeviceDiscovery\"}".to_string(),
        parsed: Some(FileTransferMessage::DeviceDiscovery { timestamp: now }),
    };
    let action = a.handle(frame, &mut registry, now);
    match action {
        SessionAction::Send(FileTransferMessage::DeviceList { devices, timestamp }) => {
            assert_eq!(timestamp, now);
            assert!(devices.iter().any(|d| d.name == "A"));
            assert!(devices.iter().any(|d| d.name == "B"));
            for d in devices.iter() {
                assert!(now - d.last_seen < PRESENCE_TIMEOUT_MILLIS);
            }
        },
        _ => panic!("a discovery query must be answered with the roster"),
    }
}

#[test]
fn test_liveness_signals_reset_clock() {
    let mut registry = DiscoveryService::new();
    let mut ws = FileTransferWs::new("C".to_string());
    ws.started(&mut registry);

    let t = ws.hb + 8_000;
    let action = ws.handle(WsFrame::Ping(vec![1, 2]), &mut registry, t);
    assert!(matches!(action, SessionAction::ReplyPong(p) if p == vec![1, 2]));
    assert_eq!(ws.hb, t);

    let t2 = t + 8_000;
    let action = ws.handle(WsFrame::Pong(vec![]), &mut registry, t2);
    assert!(matches!(action, SessionAction::Ignore));
    assert_eq!(ws.hb, t2);

    // With the stamp refreshed, a heartbeat tick shortly after still probes.
    let step = ws.heartbeat(&mut registry, t2 + 5_000);
    assert_eq!(step, HeartbeatStep::SendPing);
}

#[test]
fn test_unrecognized_message_echoed() {
    let mut registry = DiscoveryService::new();
    let mut ws = FileTransferWs::new("D".to_string());
    ws.started(&mut registry);
    let now = current_millis();

    let raw = "{\"type\":\"TransferAccept\",\"file_id\":\"x\"}".to_string();
    let frame = WsFrame::Text {
        raw: raw.clone(),
        parsed: Some(FileTransferMessage::TransferAccept { file_id: "x".to_string(), timestamp: now }),
    };
    let action = ws.handle(frame, &mut registry, now);
    assert!(matches!(action, SessionAction::EchoText(t) if t == raw));

    // A text that parses as no known message is dropped.
    let frame = WsFrame::Text { raw: "not json".to_string(), parsed: None };
    let action = ws.handle(frame, &mut registry, now);
    assert!(matches!(action, SessionAction::Ignore));
}

#[test]
fn test_close_deregisters_once() {
    let mut registry = DiscoveryService::new();
    let mut ws = FileTransferWs::new("E".to_string());
    ws.started(&mut registry);
    let now = current_millis();

    let action = ws.handle(WsFrame::Close, &mut registry, now);
    assert!(matches!(action, SessionAction::CloseConnection));
    assert!(matches!(ws.state, SessionState::Closing));
    assert!(registry.get_nearby_devices_at(now).is_empty());

    // The stop path that races the close finds the device already gone and
    // the removal stays idempotent.
    ws.stopped(&mut registry);
    assert!(matches!(ws.state, SessionState::Closed));
    assert!(registry.get_nearby_devices_at(now).is_empty());
}

#[test]
fn test_broadcast_tick_refreshes_and_reports() {
    let mut registry = DiscoveryService::new();
    let mut ws = FileTransferWs::new("F".to_string());
    ws.started(&mut registry);

    let now = current_millis() + 9_000;
    let msg = ws.start_discovery(&mut registry, now);
    match msg {
        FileTransferMessage::DeviceList { devices, timestamp } => {
            assert_eq!(timestamp, now);
            assert_eq!(devices.len(), 1);
            assert_eq!(devices[0].name, "F");
            // The tick refreshed the session's own stamp to `now`.
            assert_eq!(devices[0].last_seen, now);
        },
        _ => panic!("a broadcast tick must assemble a roster message"),
    }
}

#[test]
fn test_clock_is_past_epoch() {
    let t = current_millis();
    // Well past 2001-09-09, so a broken clamp or a constant would show up.
    assert!(t > 1_000_000_000_000);
}
