use ephemeral_hub::hub::{Edit, PathData, WsMessage};
use ephemeral_hub::rooms::RoomMap;
use ephemeral_hub::session::{SessionAction, SessionEvent, SessionPhase, SyncSession};
use tokio::sync::broadcast::error::TryRecvError;

fn stroke(points: Vec<(u64, u64)>) -> PathData {
    PathData { id: "user-1".to_string(), points, color: "#e6194b".to_string(), stroke_width: 2 }
}

#[test]
fn frame_reaches_same_hub_only() {
    let mut rooms = RoomMap::new();
    let mut a = rooms.join("hub1");
    let mut b = rooms.join("hub1");
    let mut c = rooms.join("hub2");
    assert_eq!(a.room, b.room);
    assert_ne!(a.room, c.room);
    let frame = r#"{"PathCompleted":{"id":"u-1","points":[[1.0,2.0]],"color":"black","stroke_width":2.0}}"#;
    assert_eq!(rooms.publish("hub1", frame.to_string()), Some(a.room));
    assert_eq!(b.receiver.try_recv().unwrap(), frame);
    assert_eq!(a.receiver.try_recv().unwrap(), frame);
    assert!(matches!(c.receiver.try_recv(), Err(TryRecvError::Empty)));
}

#[test]
fn publish_without_room_or_subscriber_is_harmless() {
    let mut rooms = RoomMap::new();
    assert_eq!(rooms.publish("nobody", "x".to_string()), None);
    let sub = rooms.join("h");
    let room = sub.room;
    drop(sub);
    assert_eq!(rooms.publish("h", "x".to_string()), Some(room));
    assert_eq!(rooms.room_of("h"), Some(room));
}

#[test]
fn frames_arrive_in_publish_order() {
    let mut rooms = RoomMap::new();
    let mut s = rooms.join("h");
    rooms.publish("h", "1".to_string());
    rooms.publish("h", "2".to_string());
    assert_eq!(s.receiver.try_recv().unwrap(), "1");
    assert_eq!(s.receiver.try_recv().unwrap(), "2");
}

#[test]
fn session_relays_and_persists_strokes() {
    let mut s = SyncSession::new("hub1".to_string());
    assert_eq!(s.phase, SessionPhase::Connecting);
    match s.step(SessionEvent::Upgraded) {
        SessionAction::Join { hub_id } => assert_eq!(hub_id, "hub1"),
        other => panic!("unexpected {:?}", other),
    }
    assert_eq!(s.phase, SessionPhase::Active);
    match s.step(SessionEvent::Frame { text: "raw".to_string(), decoded: Some(WsMessage::PathCompleted(stroke(vec![(1, 2)]))) }) {
        SessionAction::Relay { frame, persist } => {
            assert_eq!(frame, "raw");
            assert_eq!(persist, Some(Edit::AddPath(stroke(vec![(1, 2)]))));
        }
        other => panic!("unexpected {:?}", other),
    }
    match s.step(SessionEvent::Frame { text: "chat".to_string(), decoded: None }) {
        SessionAction::Relay { frame, persist } => {
            assert_eq!(frame, "chat");
            assert_eq!(persist, None);
        }
        other => panic!("unexpected {:?}", other),
    }
}

#[test]
fn stroke_without_points_is_not_persisted() {
    let mut s = SyncSession::new("h".to_string());
    s.step(SessionEvent::Upgraded);
    match s.step(SessionEvent::Frame { text: "f".to_string(), decoded: Some(WsMessage::PathCompleted(stroke(vec![]))) }) {
        SessionAction::Relay { frame, persist } => {
            assert_eq!(frame, "f");
            assert_eq!(persist, None);
        }
        other => panic!("unexpected {:?}", other),
    }
}

#[test]
fn closing_one_session_leaves_the_other_running() {
    let mut rooms = RoomMap::new();
    let mut a = SyncSession::new("h".to_string());
    let mut b = SyncSession::new("h".to_string());
    a.step(SessionEvent::Upgraded);
    b.step(SessionEvent::Upgraded);
    let sub_a = rooms.join("h");
    let mut sub_b = rooms.join("h");
    assert!(matches!(a.step(SessionEvent::InboundEnded), SessionAction::CancelOutbound));
    assert_eq!(a.phase, SessionPhase::Closed);
    drop(sub_a);
    assert!(matches!(a.step(SessionEvent::Frame { text: "late".to_string(), decoded: None }), SessionAction::Nothing));
    assert!(matches!(a.step(SessionEvent::OutboundEnded), SessionAction::Nothing));
    assert_eq!(a.phase, SessionPhase::Closed);
    assert_eq!(b.phase, SessionPhase::Active);
    match b.step(SessionEvent::Frame { text: "still".to_string(), decoded: None }) {
        SessionAction::Relay { frame, .. } => {
            rooms.publish("h", frame);
        }
        other => panic!("unexpected {:?}", other),
    }
    assert_eq!(sub_b.receiver.try_recv().unwrap(), "still");
}

#[test]
fn outbound_end_cancels_inbound() {
    let mut s = SyncSession::new("h".to_string());
    s.step(SessionEvent::Upgraded);
    assert!(matches!(s.step(SessionEvent::OutboundEnded), SessionAction::CancelInbound));
    assert_eq!(s.phase, SessionPhase::Closed);
}

#[test]
fn failed_upgrade_closes_without_joining() {
    let mut s = SyncSession::new("h".to_string());
    assert!(matches!(s.step(SessionEvent::InboundEnded), SessionAction::Nothing));
    assert_eq!(s.phase, SessionPhase::Closed);
    assert!(matches!(s.step(SessionEvent::Upgraded), SessionAction::Nothing));
}

#[test]
fn lagging_does_not_close_session() {
    let mut s = SyncSession::new("h".to_string());
    s.step(SessionEvent::Upgraded);
    assert!(matches!(s.step(SessionEvent::Lagged { missed: 3 }), SessionAction::Nothing));
    assert_eq!(s.phase, SessionPhase::Active);
    assert!(matches!(s.step(SessionEvent::Frame { text: "x".to_string(), decoded: None }), SessionAction::Relay { .. }));
}

#[test]
fn room_channel_keeps_capacity_frames() {
    let mut rooms = RoomMap::new();
    let mut s = rooms.join("h");
    for i in 0..128 {
        rooms.publish("h", i.to_string());
    }
    assert_eq!(s.receiver.try_recv().unwrap(), "0");
    let mut lagging = rooms.join("h");
    for i in 0..129 {
        rooms.publish("h", i.to_string());
    }
    assert!(matches!(lagging.receiver.try_recv(), Err(TryRecvError::Lagged(1))));
}
