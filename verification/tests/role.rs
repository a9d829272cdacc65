use esp_openthread::ThreadDeviceRole;

#[test]
fn roles_from_raw_codes() {
    assert_eq!(ThreadDeviceRole::from(0), ThreadDeviceRole::Disabled);
    assert_eq!(ThreadDeviceRole::from(1), ThreadDeviceRole::Detached);
    assert_eq!(ThreadDeviceRole::from(2), ThreadDeviceRole::Child);
    assert_eq!(ThreadDeviceRole::from(3), ThreadDeviceRole::Router);
    assert_eq!(ThreadDeviceRole::from(4), ThreadDeviceRole::Leader);
    assert_eq!(ThreadDeviceRole::from(5), ThreadDeviceRole::Unknown);
    assert_eq!(ThreadDeviceRole::from_raw(u32::MAX), ThreadDeviceRole::Unknown);
}

#[test]
fn role_names() {
    assert_eq!(ThreadDeviceRole::Disabled.to_string(), "Disabled");
    assert_eq!(ThreadDeviceRole::Detached.to_string(), "Detached");
    assert_eq!(ThreadDeviceRole::Child.to_string(), "Child");
    assert_eq!(ThreadDeviceRole::Router.to_string(), "Router");
    assert_eq!(ThreadDeviceRole::Leader.to_string(), "Leader");
    assert_eq!(ThreadDeviceRole::Unknown.to_string(), "Unknown");
}
