use lib::c70_disconnect_control::{DisconnectControl, DisconnectState};
use lib::{DlmsData, ObisCode};

#[test]
fn test_disconnect_control_class_id() {
    let dc = DisconnectControl::new(ObisCode::new(0, 0, 96, 1, 0, 255));
    assert_eq!(dc.class_id(), 70);
}

#[test]
fn test_disconnect_control_method_count() {
    let dc = DisconnectControl::new(ObisCode::new(0, 0, 96, 1, 0, 255));
    assert_eq!(dc.method_count(), 3);
}

#[test]
fn test_disconnect_control_state() {
    let dc = DisconnectControl::new(ObisCode::new(0, 0, 96, 1, 0, 255));
    assert_eq!(dc.control_state(), DisconnectState::Connected);
}

#[test]
fn test_disconnect_control_roundtrip() {
    let mut dc = DisconnectControl::new(ObisCode::new(0, 0, 96, 1, 0, 255));
    let bytes = DlmsData::Enum(0); // Disconnected
    dc.apply_attribute(2, Some(bytes)).unwrap();
    assert_eq!(dc.control_state(), DisconnectState::Disconnected);
}

#[test]
fn test_disconnect_control_action_disconnect() {
    let mut dc = DisconnectControl::new(ObisCode::new(0, 0, 96, 1, 0, 255));
    let result = dc.execute_action(1, &[]).unwrap();
    assert_eq!(dc.control_state(), DisconnectState::Disconnected);
    assert_eq!(dc.output_state(), DisconnectState::Disconnected);
}

#[test]
fn test_disconnect_control_action_reconnect() {
    let mut dc = DisconnectControl::new(ObisCode::new(0, 0, 96, 1, 0, 255));
    dc.execute_action(1, &[]).unwrap(); // disconnect first
    dc.execute_action(2, &[]).unwrap(); // reconnect
    assert_eq!(dc.control_state(), DisconnectState::Connected);
}
