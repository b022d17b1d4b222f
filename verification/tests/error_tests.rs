use camctrl::error::{DeviceError, TransportFault};

#[test]
fn authorization_fault_becomes_unauthorized() {
    let e = DeviceError::from(TransportFault::Authorization("bad password".to_string()));
    assert!(matches!(&e, DeviceError::Unauthorized(m) if m == "bad password"));
    assert_eq!(e.message(), "Unauthorized: bad password");
}

#[test]
fn other_fault_becomes_transport() {
    let e = DeviceError::from(TransportFault::Other("timed out".to_string()));
    assert!(matches!(&e, DeviceError::Transport(m) if m == "timed out"));
    assert_eq!(e.message(), "Transport error: timed out");
}

#[test]
fn string_becomes_unknown() {
    let e = DeviceError::from("boom".to_string());
    assert!(matches!(&e, DeviceError::Unknown(Some(m)) if m == "boom"));
    assert_eq!(e.message(), "Unknown error: boom");
}

#[test]
fn default_is_unknown_without_message() {
    let e = DeviceError::default();
    assert!(matches!(e, DeviceError::Unknown(None)));
    assert_eq!(e.message(), "Unknown error");
}

#[test]
fn unexpected_behavior_message() {
    let e = DeviceError::UnexpectedBehavior("odd".to_string());
    assert_eq!(e.message(), "Unexpected behavior: odd");
}
