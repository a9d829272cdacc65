//! Verified core of the OpenThread platform layer for IEEE 802.15.4 radios.
//!
//! The modules hold the decisions that the platform glue makes: mapping of
//! OpenThread status codes, decoding of received radio frames, the radio and
//! network settings that the platform callbacks read and write, the
//! conversion of an operational dataset into its raw form, and the receive
//! buffer of a UDP socket.

pub mod addr;
pub mod dataset;
pub mod error;
pub mod flags;
pub mod link;
pub mod frame;
pub mod radio;
pub mod role;
pub mod settings;
pub mod udp;

pub use error::{check_status, Error, OtError};
pub use frame::{
    classify_received, frame_get_type, is_supported_frame_type_raw, rssi_to_lqi, ReceivedAction,
    ReceivedFrame,
};
pub use radio::{
    reported_rssi, u64_from_be_bytes, CcaMode, RadioConfig, RadioSettings, FALLBACK_RSSI,
    RADIO_CAPS, RECEIVE_SENSITIVITY,
};
pub use settings::{NetworkSettings, SettingsStore};
pub use dataset::{
    prepare_active_dataset, OperationalDataset, RawDatasetComponents, RawOperationalDataset,
    RawSecurityPolicy, RawTimestamp, SecurityPolicy, ThreadTimestamp, OT_NETWORK_NAME_MAX_SIZE,
};
pub use flags::ChangedFlags;
pub use role::ThreadDeviceRole;
pub use addr::{collect_unicast_addresses, Ipv6Address, NetworkInterfaceUnicastAddress, RawNetifAddress};
pub use udp::{
    udp_send_after_alloc, udp_send_after_append, udp_send_after_send, UdpReceiveBuffer,
    UdpReceiveView, UdpSendStep,
};
pub use link::link_mode_bits;
