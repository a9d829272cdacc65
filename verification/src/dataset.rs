use vstd::prelude::*;

use crate::settings::{NetworkSettings, SettingsStore};

verus! {

/// Longest network name, in bytes.
pub const OT_NETWORK_NAME_MAX_SIZE: usize = 16;

/// Size of the raw network name field: the name and a terminating zero.
pub const RAW_NETWORK_NAME_SIZE: usize = 17;

#[verifier::external_type_specification]
#[verifier::external_body]
pub struct ExHeaplessString<const N: usize>(heapless::String<N>);

/// The bytes that a network name holds.
pub uninterp spec fn network_name_bytes(name: heapless::String<16>) -> Seq<u8>;

/// `heapless::String::as_str`, then `str::as_bytes`: the UTF-8 bytes of the
/// name. The string is backed by a vector of capacity 16, so there are at
/// most 16 of them.
#[verifier::external_body]
fn name_as_bytes(name: &heapless::String<16>) -> (r: &[u8])
    ensures
        r@ == network_name_bytes(*name),
        r@.len() <= OT_NETWORK_NAME_MAX_SIZE,
{
    name.as_bytes()
}

/// Thread Dataset timestamp
#[derive(Debug, Clone, Copy)]
pub struct ThreadTimestamp {
    pub seconds: u64,
    pub ticks: u16,
    pub authoritative: bool,
}

/// Security Policy
#[derive(Debug, Clone, Default)]
pub struct SecurityPolicy {
    /// The value for thrKeyRotation in units of hours.
    pub rotation_time: u16,
    /// Autonomous Enrollment is enabled.
    pub autonomous_enrollment_enabled: bool,
    /// Commercial Commissioning is enabled.
    pub commercial_commissioning_enabled: bool,
    /// External Commissioner authentication is allowed.
    pub external_commissioning_enabled: bool,
    /// Native Commissioning using PSKc is allowed.
    pub native_commissioning_enabled: bool,
    /// Network Key Provisioning is enabled.
    pub network_key_provisioning_enabled: bool,
    /// Non-CCM Routers enabled.
    pub non_ccm_routers_enabled: bool,
    /// Obtaining the Network Key for out-of-band commissioning is enabled.
    pub obtain_network_key_enabled: bool,
    /// Thread 1.0/1.1.x Routers are enabled.
    pub routers_enabled: bool,
    /// ToBLE link is enabled.
    pub toble_link_enabled: bool,
    /// Version-threshold for Routing.
    pub version_threshold_for_routing: u8,
}

/// Active or Pending Operational Dataset
#[derive(Debug, Clone, Default)]
pub struct OperationalDataset {
    /// Active Timestamp
    pub active_timestamp: Option<ThreadTimestamp>,
    /// Pending Timestamp
    pub pending_timestamp: Option<ThreadTimestamp>,
    /// Network Key
    pub network_key: Option<[u8; 16]>,
    /// Network name
    pub network_name: Option<heapless::String<16>>,
    /// Extended PAN ID
    pub extended_pan_id: Option<[u8; 8]>,
    /// Mesh Local Prefix
    pub mesh_local_prefix: Option<[u8; 8]>,
    /// Delay Timer
    pub delay: Option<u32>,
    /// PAN ID
    pub pan_id: Option<u16>,
    /// Channel
    pub channel: Option<u16>,
    /// PSKc
    pub pskc: Option<[u8; 16]>,
    /// Security Policy.
    pub security_policy: Option<SecurityPolicy>,
    /// Channel Mask
    pub channel_mask: Option<u32>,
}

/// Timestamp in the form the OpenThread dataset API takes.
#[derive(Debug, PartialEq, Eq, Structural, Clone, Copy)]
pub struct RawTimestamp {
    pub seconds: u64,
    pub ticks: u16,
    pub authoritative: bool,
}

/// Security policy in the form the OpenThread dataset API takes: the
/// rotation time and the flags in the order of its bit field.
#[derive(Debug, PartialEq, Eq, Structural, Clone, Copy)]
pub struct RawSecurityPolicy {
    pub rotation_time: u16,
    pub obtain_network_key_enabled: bool,
    pub native_commissioning_enabled: bool,
    pub routers_enabled: bool,
    pub external_commissioning_enabled: bool,
    pub commercial_commissioning_enabled: bool,
    pub autonomous_enrollment_enabled: bool,
    pub network_key_provisioning_enabled: bool,
    pub toble_link_enabled: bool,
    pub non_ccm_routers_enabled: bool,
    pub version_threshold_for_routing: u8,
}

/// Which components of a raw dataset are present.
#[derive(Debug, PartialEq, Eq, Structural, Clone, Copy)]
pub struct RawDatasetComponents {
    pub active_timestamp_present: bool,
    pub pending_timestamp_present: bool,
    pub network_key_present: bool,
    pub network_name_present: bool,
    pub extended_pan_id_present: bool,
    pub mesh_local_prefix_present: bool,
    pub delay_present: bool,
    pub pan_id_present: bool,
    pub channel_present: bool,
    pub pskc_present: bool,
    pub security_policy_present: bool,
    pub channel_mask_present: bool,
}

/// Operational dataset in the form the OpenThread dataset API takes:
/// absent components are zero and marked absent.
#[derive(Debug, Clone, Copy)]
pub struct RawOperationalDataset {
    pub active_timestamp: RawTimestamp,
    pub pending_timestamp: RawTimestamp,
    pub network_key: [u8; 16],
    pub network_name: [i8; 17],
    pub extended_pan_id: [u8; 8],
    pub mesh_local_prefix: [u8; 8],
    pub delay: u32,
    pub pan_id: u16,
    pub channel: u16,
    pub pskc: [u8; 16],
    pub security_policy: RawSecurityPolicy,
    pub channel_mask: u32,
    pub components: RawDatasetComponents,
}

/// Weight of a one-bit flag at bit `i`: `2` to the `i` when set, else `0`.
pub open spec fn flag_weight(flag: bool, weight: nat) -> nat {
    if flag {
        weight
    } else {
        0
    }
}

impl RawSecurityPolicy {
    /// The packed flag word: the nine flags in bits 0 to 8, in field order,
    /// and the low three bits of the version threshold in bits 9 to 11.
    pub open spec fn spec_bitfield(self) -> nat {
        flag_weight(self.obtain_network_key_enabled, 1) + flag_weight(
            self.native_commissioning_enabled,
            2,
        ) + flag_weight(self.routers_enabled, 4) + flag_weight(
            self.external_commissioning_enabled,
            8,
        ) + flag_weight(self.commercial_commissioning_enabled, 16) + flag_weight(
            self.autonomous_enrollment_enabled,
            32,
        ) + flag_weight(self.network_key_provisioning_enabled, 64) + flag_weight(
            self.toble_link_enabled,
            128,
        ) + flag_weight(self.non_ccm_routers_enabled, 256) + (self.version_threshold_for_routing
            % 8) as nat * 512
    }

    /// Packs the flags and the version threshold into the flag word of the
    /// raw security policy.
    pub fn bitfield(&self) -> (r: u16)
        ensures
            r as nat == self.spec_bitfield(),
    {
        let mut r: u16 = 0;
        if self.obtain_network_key_enabled {
            r = r + 1;
        }
        if self.native_commissioning_enabled {
            r = r + 2;
        }
        if self.routers_enabled {
            r = r + 4;
        }
        if self.external_commissioning_enabled {
            r = r + 8;
        }
        if self.commercial_commissioning_enabled {
            r = r + 16;
        }
        if self.autonomous_enrollment_enabled {
            r = r + 32;
        }
        if self.network_key_provisioning_enabled {
            r = r + 64;
        }
        if self.toble_link_enabled {
            r = r + 128;
        }
        if self.non_ccm_routers_enabled {
            r = r + 256;
        }
        let t = self.version_threshold_for_routing;
        assert(t & 7 == t % 8) by (bit_vector);
        let low = (t & 7) as u16;
        r + low * 512
    }
}

/// Each flag of a security policy reads back from its packed word at its
/// bit, and the version threshold's low three bits read back above them.
pub proof fn lemma_security_bitfield_read_back(p: RawSecurityPolicy)
    ensures
        ({
            let w = p.spec_bitfield();
            &&& (w % 2 == 1) == p.obtain_network_key_enabled
            &&& ((w / 2) % 2 == 1) == p.native_commissioning_enabled
            &&& ((w / 4) % 2 == 1) == p.routers_enabled
            &&& ((w / 8) % 2 == 1) == p.external_commissioning_enabled
            &&& ((w / 16) % 2 == 1) == p.commercial_commissioning_enabled
            &&& ((w / 32) % 2 == 1) == p.autonomous_enrollment_enabled
            &&& ((w / 64) % 2 == 1) == p.network_key_provisioning_enabled
            &&& ((w / 128) % 2 == 1) == p.toble_link_enabled
            &&& ((w / 256) % 2 == 1) == p.non_ccm_routers_enabled
            &&& w / 512 == p.version_threshold_for_routing % 8
        }),
{
}

/// `n` zero bytes.
pub open spec fn zeros(n: nat) -> Seq<u8> {
    Seq::new(n, |i: int| 0u8)
}

/// The raw form of an optional timestamp: its fields, or all zero.
pub open spec fn raw_timestamp(t: Option<ThreadTimestamp>) -> RawTimestamp {
    match t {
        Some(t) => RawTimestamp { seconds: t.seconds, ticks: t.ticks, authoritative: t.authoritative },
        None => RawTimestamp { seconds: 0, ticks: 0, authoritative: false },
    }
}

/// The raw form of an optional security policy: its fields, or all zero.
pub open spec fn raw_security_policy(p: Option<SecurityPolicy>) -> RawSecurityPolicy {
    match p {
        Some(p) => RawSecurityPolicy {
            rotation_time: p.rotation_time,
            obtain_network_key_enabled: p.obtain_network_key_enabled,
            native_commissioning_enabled: p.native_commissioning_enabled,
            routers_enabled: p.routers_enabled,
            external_commissioning_enabled: p.external_commissioning_enabled,
            commercial_commissioning_enabled: p.commercial_commissioning_enabled,
            autonomous_enrollment_enabled: p.autonomous_enrollment_enabled,
            network_key_provisioning_enabled: p.network_key_provisioning_enabled,
            toble_link_enabled: p.toble_link_enabled,
            non_ccm_routers_enabled: p.non_ccm_routers_enabled,
            version_threshold_for_routing: p.version_threshold_for_routing,
        },
        None => RawSecurityPolicy {
            rotation_time: 0,
            obtain_network_key_enabled: false,
            native_commissioning_enabled: false,
            routers_enabled: false,
            external_commissioning_enabled: false,
            commercial_commissioning_enabled: false,
            autonomous_enrollment_enabled: false,
            network_key_provisioning_enabled: false,
            toble_link_enabled: false,
            non_ccm_routers_enabled: false,
            version_threshold_for_routing: 0,
        },
    }
}

/// Every field of a security policy lands in the raw field of the same name.
pub proof fn lemma_raw_security_policy_fields(p: SecurityPolicy)
    ensures
        raw_security_policy(Some(p)).rotation_time == p.rotation_time,
        raw_security_policy(Some(p)).obtain_network_key_enabled == p.obtain_network_key_enabled,
        raw_security_policy(Some(p)).native_commissioning_enabled == p.native_commissioning_enabled,
        raw_security_policy(Some(p)).routers_enabled == p.routers_enabled,
        raw_security_policy(Some(p)).external_commissioning_enabled == p.external_commissioning_enabled,
        raw_security_policy(Some(p)).commercial_commissioning_enabled == p.commercial_commissioning_enabled,
        raw_security_policy(Some(p)).autonomous_enrollment_enabled == p.autonomous_enrollment_enabled,
        raw_security_policy(Some(p)).network_key_provisioning_enabled == p.network_key_provisioning_enabled,
        raw_security_policy(Some(p)).toble_link_enabled == p.toble_link_enabled,
        raw_security_policy(Some(p)).non_ccm_routers_enabled == p.non_ccm_routers_enabled,
        raw_security_policy(Some(p)).version_threshold_for_routing == p.version_threshold_for_routing,
{
}

/// The raw form of an optional network name: its bytes as C characters,
/// padded with zeros to the raw field size.
pub open spec fn raw_network_name(name: Option<heapless::String<16>>) -> Seq<i8> {
    match name {
        Some(s) => Seq::new(
            RAW_NETWORK_NAME_SIZE as nat,
            |i: int|
                if i < network_name_bytes(s).len() {
                    network_name_bytes(s)[i] as i8
                } else {
                    0i8
                },
        ),
        None => Seq::new(RAW_NETWORK_NAME_SIZE as nat, |i: int| 0i8),
    }
}

/// The bytes of an optional byte array, or zeros of the same length.
pub open spec fn bytes_or_zeros<const N: usize>(o: Option<[u8; N]>) -> Seq<u8> {
    match o {
        Some(a) => a@,
        None => zeros(N as nat),
    }
}

/// The value of an optional number, or zero.
pub open spec fn u32_or_zero(o: Option<u32>) -> u32 {
    match o {
        Some(v) => v,
        None => 0,
    }
}

/// The value of an optional number, or zero.
pub open spec fn u16_or_zero(o: Option<u16>) -> u16 {
    match o {
        Some(v) => v,
        None => 0,
    }
}

/// `raw` is the raw form of `d`: every component that `d` holds is copied
/// and marked present, every other one is zero and marked absent.
pub open spec fn is_raw_form(d: OperationalDataset, raw: RawOperationalDataset) -> bool {
    &&& raw.active_timestamp == raw_timestamp(d.active_timestamp)
    &&& raw.pending_timestamp == raw_timestamp(d.pending_timestamp)
    &&& raw.network_key@ == bytes_or_zeros(d.network_key)
    &&& raw.network_name@ == raw_network_name(d.network_name)
    &&& raw.extended_pan_id@ == bytes_or_zeros(d.extended_pan_id)
    &&& raw.mesh_local_prefix@ == bytes_or_zeros(d.mesh_local_prefix)
    &&& raw.delay == u32_or_zero(d.delay)
    &&& raw.pan_id == u16_or_zero(d.pan_id)
    &&& raw.channel == u16_or_zero(d.channel)
    &&& raw.pskc@ == bytes_or_zeros(d.pskc)
    &&& raw.security_policy == raw_security_policy(d.security_policy)
    &&& raw.channel_mask == u32_or_zero(d.channel_mask)
    &&& raw.components == RawDatasetComponents {
        active_timestamp_present: d.active_timestamp is Some,
        pending_timestamp_present: d.pending_timestamp is Some,
        network_key_present: d.network_key is Some,
        network_name_present: d.network_name is Some,
        extended_pan_id_present: d.extended_pan_id is Some,
        mesh_local_prefix_present: d.mesh_local_prefix is Some,
        delay_present: d.delay is Some,
        pan_id_present: d.pan_id is Some,
        channel_present: d.channel is Some,
        pskc_present: d.pskc is Some,
        security_policy_present: d.security_policy is Some,
        channel_mask_present: d.channel_mask is Some,
    }
}

/// The network settings after a dataset was made active: its PAN ID and
/// its channel (cut to eight bits) replace the old ones where it has them.
pub open spec fn settings_with_dataset(s: NetworkSettings, d: OperationalDataset) -> NetworkSettings {
    NetworkSettings {
        pan_id: match d.pan_id {
            Some(p) => p,
            None => s.pan_id,
        },
        channel: match d.channel {
            Some(c) => c as u8,
            None => s.channel,
        },
        ..s
    }
}

fn raw_timestamp_of(t: Option<ThreadTimestamp>) -> (r: RawTimestamp)
    ensures
        r == raw_timestamp(t),
{
    match t {
        Some(t) => RawTimestamp { seconds: t.seconds, ticks: t.ticks, authoritative: t.authoritative },
        None => RawTimestamp { seconds: 0, ticks: 0, authoritative: false },
    }
}

fn raw_security_policy_of(p: &Option<SecurityPolicy>) -> (r: RawSecurityPolicy)
    ensures
        r == raw_security_policy(*p),
        p matches Some(q) ==> r.rotation_time == q.rotation_time,
        p matches Some(q) ==> r.obtain_network_key_enabled == q.obtain_network_key_enabled,
        p matches Some(q) ==> r.native_commissioning_enabled == q.native_commissioning_enabled,
        p matches Some(q) ==> r.routers_enabled == q.routers_enabled,
        p matches Some(q) ==> r.external_commissioning_enabled == q.external_commissioning_enabled,
        p matches Some(q) ==> r.commercial_commissioning_enabled == q.commercial_commissioning_enabled,
        p matches Some(q) ==> r.autonomous_enrollment_enabled == q.autonomous_enrollment_enabled,
        p matches Some(q) ==> r.network_key_provisioning_enabled == q.network_key_provisioning_enabled,
        p matches Some(q) ==> r.toble_link_enabled == q.toble_link_enabled,
        p matches Some(q) ==> r.non_ccm_routers_enabled == q.non_ccm_routers_enabled,
        p matches Some(q) ==> r.version_threshold_for_routing == q.version_threshold_for_routing,
{
    match p {
        Some(p) => RawSecurityPolicy {
            rotation_time: p.rotation_time,
            obtain_network_key_enabled: p.obtain_network_key_enabled,
            native_commissioning_enabled: p.native_commissioning_enabled,
            routers_enabled: p.routers_enabled,
            external_commissioning_enabled: p.external_commissioning_enabled,
            commercial_commissioning_enabled: p.commercial_commissioning_enabled,
            autonomous_enrollment_enabled: p.autonomous_enrollment_enabled,
            network_key_provisioning_enabled: p.network_key_provisioning_enabled,
            toble_link_enabled: p.toble_link_enabled,
            non_ccm_routers_enabled: p.non_ccm_routers_enabled,
            version_threshold_for_routing: p.version_threshold_for_routing,
        },
        None => RawSecurityPolicy {
            rotation_time: 0,
            obtain_network_key_enabled: false,
            native_commissioning_enabled: false,
            routers_enabled: false,
            external_commissioning_enabled: false,
            commercial_commissioning_enabled: false,
            autonomous_enrollment_enabled: false,
            network_key_provisioning_enabled: false,
            toble_link_enabled: false,
            non_ccm_routers_enabled: false,
            version_threshold_for_routing: 0,
        },
    }
}

fn raw_network_name_of(name: &Option<heapless::String<16>>) -> (r: [i8; 17])
    ensures
        r@ == raw_network_name(*name),
{
    let mut raw = [0i8; 17];
    match name {
        Some(s) => {
            let bytes = name_as_bytes(s);
            let n = bytes.len();
            let mut i: usize = 0;
            while i < n
                invariant
                    n == bytes@.len(),
                    n <= OT_NETWORK_NAME_MAX_SIZE,
                    i <= n,
                    raw@.len() == RAW_NETWORK_NAME_SIZE,
                    forall|j: int| 0 <= j < i ==> raw@[j] == bytes@[j] as i8,
                    forall|j: int| i <= j < RAW_NETWORK_NAME_SIZE ==> raw@[j] == 0i8,
                decreases n - i,
            {
                raw[i] = bytes[i] as i8;
                i += 1;
            }
            assert(raw@ =~= raw_network_name(*name));
        },
        None => {
            assert(raw@ =~= raw_network_name(*name));
        },
    }
    raw
}

fn bytes16_or_zeros(o: Option<[u8; 16]>) -> (r: [u8; 16])
    ensures
        r@ == bytes_or_zeros(o),
{
    match o {
        Some(a) => a,
        None => {
            let z = [0u8; 16];
            assert(z@ =~= zeros(16));
            z
        },
    }
}

fn bytes8_or_zeros(o: Option<[u8; 8]>) -> (r: [u8; 8])
    ensures
        r@ == bytes_or_zeros(o),
{
    match o {
        Some(a) => a,
        None => {
            let z = [0u8; 8];
            assert(z@ =~= zeros(8));
            z
        },
    }
}

impl OperationalDataset {
    /// The raw form of this dataset, as the OpenThread dataset API takes it.
    pub fn to_raw(&self) -> (r: RawOperationalDataset)
        ensures
            is_raw_form(*self, r),
            self.security_policy matches Some(p) ==> r.security_policy.rotation_time == p.rotation_time,
            self.security_policy matches Some(p) ==> r.security_policy.obtain_network_key_enabled == p.obtain_network_key_enabled,
            self.security_policy matches Some(p) ==> r.security_policy.native_commissioning_enabled == p.native_commissioning_enabled,
            self.security_policy matches Some(p) ==> r.security_policy.routers_enabled == p.routers_enabled,
            self.security_policy matches Some(p) ==> r.security_policy.external_commissioning_enabled == p.external_commissioning_enabled,
            self.security_policy matches Some(p) ==> r.security_policy.commercial_commissioning_enabled == p.commercial_commissioning_enabled,
            self.security_policy matches Some(p) ==> r.security_policy.autonomous_enrollment_enabled == p.autonomous_enrollment_enabled,
            self.security_policy matches Some(p) ==> r.security_policy.network_key_provisioning_enabled == p.network_key_provisioning_enabled,
            self.security_policy matches Some(p) ==> r.security_policy.toble_link_enabled == p.toble_link_enabled,
            self.security_policy matches Some(p) ==> r.security_policy.non_ccm_routers_enabled == p.non_ccm_routers_enabled,
            self.security_policy matches Some(p) ==> r.security_policy.version_threshold_for_routing == p.version_threshold_for_routing,
    {
        RawOperationalDataset {
            active_timestamp: raw_timestamp_of(self.active_timestamp),
            pending_timestamp: raw_timestamp_of(self.pending_timestamp),
            network_key: bytes16_or_zeros(self.network_key),
            network_name: raw_network_name_of(&self.network_name),
            extended_pan_id: bytes8_or_zeros(self.extended_pan_id),
            mesh_local_prefix: bytes8_or_zeros(self.mesh_local_prefix),
            delay: match self.delay {
                Some(v) => v,
                None => 0,
            },
            pan_id: match self.pan_id {
                Some(v) => v,
                None => 0,
            },
            channel: match self.channel {
                Some(v) => v,
                None => 0,
            },
            pskc: bytes16_or_zeros(self.pskc),
            security_policy: raw_security_policy_of(&self.security_policy),
            channel_mask: match self.channel_mask {
                Some(v) => v,
                None => 0,
            },
            components: RawDatasetComponents {
                active_timestamp_present: self.active_timestamp.is_some(),
                pending_timestamp_present: self.pending_timestamp.is_some(),
                network_key_present: self.network_key.is_some(),
                network_name_present: self.network_name.is_some(),
                extended_pan_id_present: self.extended_pan_id.is_some(),
                mesh_local_prefix_present: self.mesh_local_prefix.is_some(),
                delay_present: self.delay.is_some(),
                pan_id_present: self.pan_id.is_some(),
                channel_present: self.channel.is_some(),
                pskc_present: self.pskc.is_some(),
                security_policy_present: self.security_policy.is_some(),
                channel_mask_present: self.channel_mask.is_some(),
            },
        }
    }
}

/// Prepares a dataset to be made active: records its PAN ID and channel in
/// the network settings (only when it has one of them) and returns its raw
/// form, which is then handed to the OpenThread dataset API.
pub fn prepare_active_dataset(settings: &mut SettingsStore, dataset: &OperationalDataset) -> (r:
    RawOperationalDataset)
    ensures
        is_raw_form(*dataset, r),
        (dataset.pan_id is Some || dataset.channel is Some) ==> final(settings).stored() == Some(
            settings_with_dataset(old(settings).current(), *dataset),
        ),
        (dataset.pan_id is None && dataset.channel is None) ==> final(settings).stored() == old(
            settings,
        ).stored(),
{
    if let Some(pan_id) = dataset.pan_id {
        let s = settings.get();
        settings.set(NetworkSettings { pan_id, ..s });
    }
    if let Some(channel) = dataset.channel {
        let s = settings.get();
        settings.set(NetworkSettings { channel: channel as u8, ..s });
    }
    dataset.to_raw()
}

} // verus!
