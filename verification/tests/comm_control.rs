use lib::comm_control::CommControl;
use lib::ObisCode;

#[test]
fn test_comm_control_class_id() {
    let cc = CommControl::new(ObisCode::new(0, 0, 206, 0, 0, 255));
    assert_eq!(cc.class_id(), 206);
}

#[test]
fn test_comm_control_new() {
    let cc = CommControl::new(ObisCode::new(0, 0, 206, 0, 0, 255));
    assert_eq!(cc.channel_count(), 0);
    assert!(cc.is_enabled());
    assert!(cc.auto_connect());
}

#[test]
fn test_comm_control_add_channel() {
    let mut cc = CommControl::new(ObisCode::new(0, 0, 206, 0, 0, 255));
    cc.add_channel(1, 1);
    assert_eq!(cc.channel_count(), 1);
}

#[test]
fn test_comm_control_enable_disable_channel() {
    let mut cc = CommControl::new(ObisCode::new(0, 0, 206, 0, 0, 255));
    cc.add_channel(1, 1);
    assert!(cc.disable_channel(1));
    assert!(!cc.get_channel(1).unwrap().enabled);
    assert!(cc.enable_channel(1));
    assert!(cc.get_channel(1).unwrap().enabled);
}

#[test]
fn test_comm_control_enabled() {
    let mut cc = CommControl::new(ObisCode::new(0, 0, 206, 0, 0, 255));
    cc.set_enabled(false);
    assert!(!cc.is_enabled());
    cc.set_enabled(true);
    assert!(cc.is_enabled());
}

#[test]
fn test_comm_control_auto_connect() {
    let mut cc = CommControl::new(ObisCode::new(0, 0, 206, 0, 0, 255));
    cc.set_auto_connect(false);
    assert!(!cc.auto_connect());
    cc.set_auto_connect(true);
    assert!(cc.auto_connect());
}

#[test]
fn test_comm_control_multiple_channels() {
    let mut cc = CommControl::new(ObisCode::new(0, 0, 206, 0, 0, 255));
    cc.add_channel(1, 1);
    cc.add_channel(2, 2);
    cc.add_channel(3, 3);
    assert_eq!(cc.channel_count(), 3);
}

#[test]
fn test_comm_control_attribute_count() {
    let cc = CommControl::new(ObisCode::new(0, 0, 206, 0, 0, 255));
    assert_eq!(cc.attribute_count(), 6);
}

#[test]
fn test_comm_control_method_count() {
    let cc = CommControl::new(ObisCode::new(0, 0, 206, 0, 0, 255));
    assert_eq!(cc.method_count(), 2);
}
