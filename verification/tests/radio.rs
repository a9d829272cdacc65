use esp_openthread::{
    reported_rssi, u64_from_be_bytes, CcaMode, RadioConfig, RadioSettings, FALLBACK_RSSI,
    RADIO_CAPS, RECEIVE_SENSITIVITY,
};

#[test]
fn default_config() {
    let c = RadioConfig::default();
    assert!(!c.auto_ack_tx && !c.auto_ack_rx && !c.enhance_ack_tx);
    assert!(!c.promiscuous && !c.coordinator && !c.rx_when_idle);
    assert_eq!(c.txpower, 10);
    assert_eq!(c.channel, 15);
    assert_eq!(c.cca_threshold, 1);
    assert_eq!(c.cca_mode, CcaMode::Ed);
    assert_eq!(c.pan_id, None);
    assert_eq!(c.short_addr, None);
    assert_eq!(c.ext_addr, None);
}

#[test]
fn empty_store_reads_default() {
    let s = RadioSettings::new();
    assert_eq!(s.get(), RadioConfig::default());
    assert_eq!(s.transmit_power(), 10);
    assert!(!s.promiscuous());
}

#[test]
fn read_gives_back_write() {
    let mut s = RadioSettings::new();
    let c = RadioConfig { txpower: 18, channel: 25, rx_when_idle: true, ..RadioConfig::default() };
    s.set(c);
    assert_eq!(s.get(), c);
    assert_eq!(s.transmit_power(), 18);
}

#[test]
fn setters_change_one_field() {
    let mut s = RadioSettings::new();
    let c = s.set_promiscuous(true);
    assert_eq!(c, RadioConfig { promiscuous: true, ..RadioConfig::default() });
    assert!(s.promiscuous());
    let c = s.set_pan_id(0x58d1);
    assert_eq!(c.pan_id, Some(0x58d1));
    assert!(c.promiscuous);
    let c = s.set_short_address(0x1234);
    assert_eq!(c.short_addr, Some(0x1234));
    let c = s.set_channel(25);
    assert_eq!(c.channel, 25);
    let c = s.set_extended_address(&[0x01, 0x02, 0x03, 0x04, 0x05, 0x06, 0x07, 0x08]);
    assert_eq!(c.ext_addr, Some(0x0102_0304_0506_0708));
    assert_eq!(s.get(), c);
    assert_eq!(c.pan_id, Some(0x58d1));
    assert_eq!(c.short_addr, Some(0x1234));
    assert_eq!(c.channel, 25);
    assert!(c.promiscuous);
}

#[test]
fn big_endian_bytes() {
    assert_eq!(u64_from_be_bytes(&[0; 8]), 0);
    assert_eq!(u64_from_be_bytes(&[0xff; 8]), u64::MAX);
    assert_eq!(u64_from_be_bytes(&[0, 0, 0, 0, 0, 0, 1, 0]), 256);
    let b = [0x3a, 0x90, 0xe3, 0xa3, 0x19, 0xa9, 0x04, 0x94];
    assert_eq!(u64_from_be_bytes(&b), u64::from_be_bytes(b));
}

#[test]
fn rssi_report() {
    assert_eq!(reported_rssi(0), FALLBACK_RSSI);
    assert_eq!(reported_rssi(127), 33);
    assert_eq!(reported_rssi(-60), -60);
    assert_eq!(reported_rssi(126), 126);
    assert_eq!(reported_rssi(-128), -128);
}

#[test]
fn radio_constants() {
    assert_eq!(RECEIVE_SENSITIVITY, -120);
    assert_eq!(RADIO_CAPS, 0);
}
