use esp_openthread::{
    prepare_active_dataset, NetworkSettings, OperationalDataset, SecurityPolicy, SettingsStore,
    ThreadTimestamp,
};

fn example_dataset() -> OperationalDataset {
    OperationalDataset {
        active_timestamp: Some(ThreadTimestamp { seconds: 1, ticks: 0, authoritative: false }),
        network_key: Some([
            0xb0, 0x92, 0x84, 0xb8, 0x4a, 0x79, 0xe4, 0xfe, 0x8e, 0xcd, 0x6b, 0x44, 0xd1, 0x99,
            0x8f, 0x27,
        ]),
        network_name: Some(heapless::String::try_from("OpenThread-58d1").unwrap()),
        extended_pan_id: Some([0x3a, 0x90, 0xe3, 0xa3, 0x19, 0xa9, 0x04, 0x94]),
        pan_id: Some(0x58d1),
        channel: Some(11),
        channel_mask: Some(0x07fff800),
        ..OperationalDataset::default()
    }
}

#[test]
fn raw_form_of_example_dataset() {
    let d = example_dataset();
    let raw = d.to_raw();
    assert_eq!(raw.active_timestamp.seconds, 1);
    assert_eq!(raw.active_timestamp.ticks, 0);
    assert!(!raw.active_timestamp.authoritative);
    assert_eq!(raw.pending_timestamp.seconds, 0);
    assert_eq!(raw.network_key, d.network_key.unwrap());
    let mut name = [0i8; 17];
    for (i, b) in b"OpenThread-58d1".iter().enumerate() {
        name[i] = *b as i8;
    }
    assert_eq!(raw.network_name, name);
    assert_eq!(raw.extended_pan_id, [0x3a, 0x90, 0xe3, 0xa3, 0x19, 0xa9, 0x04, 0x94]);
    assert_eq!(raw.mesh_local_prefix, [0; 8]);
    assert_eq!(raw.delay, 0);
    assert_eq!(raw.pan_id, 0x58d1);
    assert_eq!(raw.channel, 11);
    assert_eq!(raw.pskc, [0; 16]);
    assert_eq!(raw.security_policy.rotation_time, 0);
    assert_eq!(raw.channel_mask, 0x07fff800);
    let c = raw.components;
    assert!(c.active_timestamp_present);
    assert!(!c.pending_timestamp_present);
    assert!(c.network_key_present);
    assert!(c.network_name_present);
    assert!(c.extended_pan_id_present);
    assert!(!c.mesh_local_prefix_present);
    assert!(!c.delay_present);
    assert!(c.pan_id_present);
    assert!(c.channel_present);
    assert!(!c.pskc_present);
    assert!(!c.security_policy_present);
    assert!(c.channel_mask_present);
}

#[test]
fn empty_dataset_is_all_absent() {
    let raw = OperationalDataset::default().to_raw();
    let c = raw.components;
    assert!(!c.active_timestamp_present && !c.pending_timestamp_present);
    assert!(!c.network_key_present && !c.network_name_present);
    assert!(!c.extended_pan_id_present && !c.mesh_local_prefix_present);
    assert!(!c.delay_present && !c.pan_id_present && !c.channel_present);
    assert!(!c.pskc_present && !c.security_policy_present && !c.channel_mask_present);
    assert_eq!(raw.network_name, [0i8; 17]);
    assert_eq!(raw.network_key, [0u8; 16]);
}

#[test]
fn pending_timestamp_and_other_components() {
    let d = OperationalDataset {
        pending_timestamp: Some(ThreadTimestamp { seconds: 77, ticks: 3, authoritative: true }),
        mesh_local_prefix: Some([0xfd, 0, 0x0d, 0xb8, 0, 0, 0, 0]),
        delay: Some(30000),
        pskc: Some([7; 16]),
        security_policy: Some(SecurityPolicy {
            rotation_time: 672,
            obtain_network_key_enabled: true,
            routers_enabled: true,
            version_threshold_for_routing: 2,
            ..SecurityPolicy::default()
        }),
        ..OperationalDataset::default()
    };
    let raw = d.to_raw();
    assert_eq!(raw.pending_timestamp.seconds, 77);
    assert_eq!(raw.pending_timestamp.ticks, 3);
    assert!(raw.pending_timestamp.authoritative);
    assert_eq!(raw.active_timestamp.seconds, 0);
    assert!(raw.components.pending_timestamp_present);
    assert!(!raw.components.active_timestamp_present);
    assert_eq!(raw.mesh_local_prefix, [0xfd, 0, 0x0d, 0xb8, 0, 0, 0, 0]);
    assert_eq!(raw.delay, 30000);
    assert_eq!(raw.pskc, [7; 16]);
    let p = raw.security_policy;
    assert_eq!(p.rotation_time, 672);
    assert!(p.obtain_network_key_enabled && p.routers_enabled);
    assert!(!p.native_commissioning_enabled && !p.toble_link_enabled);
    assert_eq!(p.version_threshold_for_routing, 2);
    assert!(raw.components.security_policy_present);
}

#[test]
fn long_name_fills_sixteen_bytes() {
    let d = OperationalDataset {
        network_name: Some(heapless::String::try_from("0123456789abcdef").unwrap()),
        ..OperationalDataset::default()
    };
    let raw = d.to_raw();
    assert_eq!(raw.network_name[15], b'f' as i8);
    assert_eq!(raw.network_name[16], 0);
}

#[test]
fn settings_take_pan_id_and_channel() {
    let mut store = SettingsStore::new();
    let raw = prepare_active_dataset(&mut store, &example_dataset());
    assert_eq!(raw.pan_id, 0x58d1);
    let s = store.get();
    assert_eq!(s.pan_id, 0x58d1);
    assert_eq!(s.channel, 11);
    assert_eq!(s, NetworkSettings { pan_id: 0x58d1, channel: 11, ..NetworkSettings::default() });
}

#[test]
fn channel_is_cut_to_eight_bits() {
    let mut store = SettingsStore::new();
    store.set(NetworkSettings { pan_id: 5, ext_address: 9, ..NetworkSettings::default() });
    let d = OperationalDataset { channel: Some(0x0119), ..OperationalDataset::default() };
    prepare_active_dataset(&mut store, &d);
    assert_eq!(
        store.get(),
        NetworkSettings { pan_id: 5, ext_address: 9, channel: 0x19, ..NetworkSettings::default() }
    );
}

#[test]
fn settings_untouched_without_pan_id_or_channel() {
    let mut store = SettingsStore::new();
    let d = OperationalDataset { delay: Some(1), ..OperationalDataset::default() };
    prepare_active_dataset(&mut store, &d);
    assert_eq!(store.get(), NetworkSettings::default());
}

#[test]
fn settings_store_read_write_clear() {
    let mut store = SettingsStore::new();
    assert_eq!(store.get(), NetworkSettings::default());
    let s = NetworkSettings {
        promiscuous: true,
        ext_address: 0x1122334455667788,
        short_address: 0xfffe,
        pan_id: 0x1234,
        channel: 26,
    };
    store.set(s);
    assert_eq!(store.get(), s);
    store.clear();
    assert_eq!(store.get(), NetworkSettings::default());
}

#[test]
fn security_policy_flag_word() {
    let d = OperationalDataset {
        security_policy: Some(SecurityPolicy {
            obtain_network_key_enabled: true,
            routers_enabled: true,
            non_ccm_routers_enabled: true,
            version_threshold_for_routing: 0x0b,
            ..SecurityPolicy::default()
        }),
        ..OperationalDataset::default()
    };
    let p = d.to_raw().security_policy;
    assert_eq!(p.bitfield(), 1 | 4 | 256 | (3 << 9));
    let none = OperationalDataset::default().to_raw().security_policy;
    assert_eq!(none.bitfield(), 0);
}
