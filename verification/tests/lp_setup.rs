use lib::lp_setup::LpSetup;

#[test]
fn test_lp_setup_class_id() {
    assert_eq!(LpSetup::new().class_id(), 100);
}

#[test]
fn test_lp_setup_period() {
    assert_eq!(LpSetup::new().period(), 60);
}
