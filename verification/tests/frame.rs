use esp_openthread::frame::{
    ENERGY_DETECT_RSS, IEEE802154_FRAME_TYPE_ACK, IEEE802154_FRAME_TYPE_BEACON,
    IEEE802154_FRAME_TYPE_COMMAND, IEEE802154_FRAME_TYPE_DATA, RECEIVED_RADIO_TYPE,
};
use esp_openthread::{
    classify_received, frame_get_type, is_supported_frame_type_raw, rssi_to_lqi, ReceivedAction,
};

#[test]
fn frame_type_reads_low_bits_of_second_byte() {
    assert_eq!(frame_get_type(&[5, 0x41, 0x88]), IEEE802154_FRAME_TYPE_DATA);
    assert_eq!(frame_get_type(&[5, 0xfa]), 2);
    assert_eq!(frame_get_type(&[5, 0x0b]), IEEE802154_FRAME_TYPE_COMMAND);
    assert_eq!(frame_get_type(&[5, 0x07]), 7);
}

#[test]
fn frame_type_of_short_buffer_is_beacon() {
    assert_eq!(frame_get_type(&[]), IEEE802154_FRAME_TYPE_BEACON);
    assert_eq!(frame_get_type(&[0x41]), IEEE802154_FRAME_TYPE_BEACON);
}

#[test]
fn supported_frame_types() {
    for t in 0u8..=3 {
        assert!(is_supported_frame_type_raw(t));
    }
    for t in 4u8..=255 {
        assert!(!is_supported_frame_type_raw(t));
    }
}

#[test]
fn lqi_from_rssi() {
    assert_eq!(rssi_to_lqi(-100), 0);
    assert_eq!(rssi_to_lqi(-81), 0);
    assert_eq!(rssi_to_lqi(-80), 0);
    assert_eq!(rssi_to_lqi(-55), 127);
    assert_eq!(rssi_to_lqi(-30), 255);
    assert_eq!(rssi_to_lqi(-29), 255);
    assert_eq!(rssi_to_lqi(20), 255);
    assert_eq!(rssi_to_lqi(-70), 51);
}

fn raw_buffer(psdu: &[u8], rssi: u8) -> [u8; 129] {
    // length byte, PSDU, then the signal strength byte where the FCS would start
    let mut data = [0u8; 129];
    data[0] = (psdu.len() + 2) as u8;
    data[1..1 + psdu.len()].copy_from_slice(psdu);
    data[psdu.len() + 1] = rssi;
    data
}

#[test]
fn data_frame_is_delivered() {
    let data = raw_buffer(&[0x41, 0x88, 0x01, 0xaa], (-60i8) as u8);
    match classify_received(&data, 11, 7) {
        ReceivedAction::Deliver(f) => {
            assert_eq!(f.psdu, vec![0x41, 0x88, 0x01, 0xaa, (-60i8) as u8, 0]);
            assert_eq!(f.channel, 11);
            assert_eq!(f.radio_type, RECEIVED_RADIO_TYPE);
            assert_eq!(f.rssi, -60);
            assert_eq!(f.lqi, rssi_to_lqi(-60));
            assert_eq!(f.timestamp, 7000);
        }
        other => panic!("unexpected {:?}", other),
    }
}

#[test]
fn data_frame_rssi_read_before_end_of_length() {
    let mut data = [0u8; 129];
    data[0] = 3;
    data[1] = 0x01;
    data[2] = 0xc4; // index data[0] - 1
    match classify_received(&data, 15, 0) {
        ReceivedAction::Deliver(f) => {
            assert_eq!(f.rssi, 0xc4u8 as i8);
            assert_eq!(f.psdu, vec![0x01, 0xc4, 0x00]);
        }
        other => panic!("unexpected {:?}", other),
    }
}

#[test]
fn oversized_length_is_clamped_to_psdu_buffer() {
    let mut data = [0u8; 129];
    data[0] = 200;
    data[1] = 0x01;
    data[128] = 0x80;
    match classify_received(&data, 20, 1) {
        ReceivedAction::Deliver(f) => {
            assert_eq!(f.psdu.len(), 127);
            assert_eq!(&f.psdu[..], &data[1..128]);
            assert_eq!(f.rssi, 0x80u8 as i8); // last byte of the buffer
        }
        other => panic!("unexpected {:?}", other),
    }
}

#[test]
fn oversized_length_is_clamped_to_short_buffer() {
    let data = [200u8, 0x01, 2, 3, 4];
    match classify_received(&data, 20, 1) {
        ReceivedAction::Deliver(f) => {
            assert_eq!(f.psdu, vec![0x01, 2, 3, 4]);
            assert_eq!(f.rssi, 4);
        }
        other => panic!("unexpected {:?}", other),
    }
}

#[test]
fn zero_length_data_frame() {
    let data = [0u8, 0x01, 9, 9];
    match classify_received(&data, 20, 1) {
        ReceivedAction::Deliver(f) => {
            assert!(f.psdu.is_empty());
            assert_eq!(f.rssi, 0);
        }
        other => panic!("unexpected {:?}", other),
    }
}

#[test]
fn beacon_and_command_report_energy_scan() {
    let beacon = raw_buffer(&[0x00, 0x80], 0);
    let command = raw_buffer(&[0x03, 0x08], 0);
    assert!(matches!(
        classify_received(&beacon, 11, 0),
        ReceivedAction::EnergyScanDone(ENERGY_DETECT_RSS)
    ));
    assert!(matches!(
        classify_received(&command, 11, 0),
        ReceivedAction::EnergyScanDone(16)
    ));
}

#[test]
fn ack_and_unsupported_frames() {
    let ack = raw_buffer(&[IEEE802154_FRAME_TYPE_ACK, 0x00, 0x05], 0);
    assert!(matches!(classify_received(&ack, 11, 0), ReceivedAction::Ack));
    for t in 4u8..8 {
        let other = raw_buffer(&[t, 0x00], 0);
        assert!(matches!(classify_received(&other, 11, 0), ReceivedAction::Drop));
    }
}
