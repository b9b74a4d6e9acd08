use collector::device_path::resolve_path;

#[test]
fn configured_path_is_used() {
    assert_eq!(resolve_path(Some(String::from("/dev/ttyUSB0"))), "/dev/ttyUSB0");
}

#[test]
fn missing_configuration_falls_back_to_default() {
    assert_eq!(resolve_path(None), "COM3");
}

#[test]
fn resolution_is_idempotent() {
    // Two resolutions under the same configuration yield the same path.
    assert_eq!(
        resolve_path(Some(String::from("/dev/ttyACM1"))),
        resolve_path(Some(String::from("/dev/ttyACM1")))
    );
    assert_eq!(resolve_path(None), resolve_path(None));
}
