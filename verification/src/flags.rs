use vstd::prelude::*;

verus! {

/// IPv6 address was added
pub const IPV6_ADDRESS_ADDED: u32 = 0x1;
/// IPv6 address was removed
pub const IPV6_ADDRESS_REMOVED: u32 = 0x2;
/// Role (disabled, detached, child, router, leader) changed
pub const THREAD_ROLE_CHANGED: u32 = 0x4;
/// The link-local address changed
pub const THREAD_LL_ADDRESS_CHANGED: u32 = 0x8;
/// The mesh-local address changed
pub const THREAD_MESH_LOCAL_ADDRESS_CHANGED: u32 = 0x10;
/// RLOC was added
pub const THREAD_RLOC_ADDED: u32 = 0x20;
/// RLOC was removed
pub const THREAD_RLOC_REMOVED: u32 = 0x40;
/// Partition ID changed
pub const THREAD_PARTITION_ID_CHANGED: u32 = 0x80;
/// Thread Key Sequence changed
pub const THREAD_KEY_SEQUENCE_CHANGED: u32 = 0x100;
/// Thread Network Data changed
pub const THREAD_NETWORK_DATA_CHANGED: u32 = 0x200;
/// Child was added
pub const THREAD_CHILD_ADDED: u32 = 0x400;
/// Child was removed
pub const THREAD_CHILD_REMOVED: u32 = 0x800;
/// Subscribed to a IPv6 multicast address
pub const IPV6_MULTICAST_SUBSCRIBED: u32 = 0x1000;
/// Unsubscribed from a IPv6 multicast address
pub const IPV6_MULTICAST_UNSUBSCRIBED: u32 = 0x2000;
/// Thread network channel changed
pub const THREAD_NETWORK_CHANNEL_CHANGED: u32 = 0x4000;
/// Thread network PAN Id changed
pub const THREAD_PAN_ID_CHANGED: u32 = 0x8000;
/// Thread network name changed
pub const THREAD_NETWORK_NAME_CHANGED: u32 = 0x10000;
/// Thread network extended PAN ID changed
pub const THREAD_EXTENDED_PAN_ID_CHANGED: u32 = 0x20000;
/// Network key changed
pub const THREAD_NETWORK_KEY_CHANGED: u32 = 0x40000;
/// PSKc changed
pub const THREAD_PSKC_CHANGED: u32 = 0x80000;
/// Security Policy changed
pub const THREAD_SECURITY_POLICY_CHANGED: u32 = 0x100000;
/// Channel Manager new pending Thread channel changed
pub const CHANNEL_MANAGER_NEW_CHANNEL_CHANGED: u32 = 0x200000;
/// Supported channel mask changed
pub const SUPPORTED_CHANNEL_MASK_CHANGED: u32 = 0x400000;
/// Commissioner state changed
pub const COMMISSIONER_STATE_CHANGED: u32 = 0x800000;
/// Thread network interface state changed
pub const THREAD_NETWORK_INTERFACE_STATE_CHANGED: u32 = 0x1000000;
/// Backbone Router state changed
pub const THREAD_BACKBONE_ROUTER_STATE_CHANGED: u32 = 0x2000000;
/// Local Backbone Router configuration changed
pub const THREAD_BACKBONE_ROUTER_LOCAL_CHANGED: u32 = 0x4000000;
/// Joiner state changed
pub const JOINER_STATE_CHANGED: u32 = 0x8000000;
/// Active Operational Dataset changed
pub const ACTIVE_DATASET_CHANGED: u32 = 0x10000000;
/// Pending Operational Dataset changed
pub const PENDING_DATASET_CHANGED: u32 = 0x20000000;
/// State of the Nat64 Translator changed
pub const NAT64_TRANSLATOR_STATE_CHANGED: u32 = 0x40000000;
/// Parent link quality changed
pub const PARENT_LINK_QUALITY_CHANGED: u32 = 0x80000000;

/// Every flag that OpenThread defines.
pub const ALL_FLAGS: u32 = IPV6_ADDRESS_ADDED
    | IPV6_ADDRESS_REMOVED
    | THREAD_ROLE_CHANGED
    | THREAD_LL_ADDRESS_CHANGED
    | THREAD_MESH_LOCAL_ADDRESS_CHANGED
    | THREAD_RLOC_ADDED
    | THREAD_RLOC_REMOVED
    | THREAD_PARTITION_ID_CHANGED
    | THREAD_KEY_SEQUENCE_CHANGED
    | THREAD_NETWORK_DATA_CHANGED
    | THREAD_CHILD_ADDED
    | THREAD_CHILD_REMOVED
    | IPV6_MULTICAST_SUBSCRIBED
    | IPV6_MULTICAST_UNSUBSCRIBED
    | THREAD_NETWORK_CHANNEL_CHANGED
    | THREAD_PAN_ID_CHANGED
    | THREAD_NETWORK_NAME_CHANGED
    | THREAD_EXTENDED_PAN_ID_CHANGED
    | THREAD_NETWORK_KEY_CHANGED
    | THREAD_PSKC_CHANGED
    | THREAD_SECURITY_POLICY_CHANGED
    | CHANNEL_MANAGER_NEW_CHANNEL_CHANGED
    | SUPPORTED_CHANNEL_MASK_CHANGED
    | COMMISSIONER_STATE_CHANGED
    | THREAD_NETWORK_INTERFACE_STATE_CHANGED
    | THREAD_BACKBONE_ROUTER_STATE_CHANGED
    | THREAD_BACKBONE_ROUTER_LOCAL_CHANGED
    | JOINER_STATE_CHANGED
    | ACTIVE_DATASET_CHANGED
    | PENDING_DATASET_CHANGED
    | NAT64_TRANSLATOR_STATE_CHANGED
    | PARENT_LINK_QUALITY_CHANGED;

/// Specific state/configuration that has changed
#[derive(Debug, Clone, Copy, PartialEq, Eq, Structural, PartialOrd, Ord, Hash)]
pub struct ChangedFlags {
    bits: u32,
}

impl ChangedFlags {
    /// The bits that are set.
    pub closed spec fn spec_bits(self) -> u32 {
        self.bits
    }

    /// Flags from raw bits, if every set bit is a defined flag.
    pub fn from_bits(bits: u32) -> (r: Option<ChangedFlags>)
        ensures
            (r is Some) <==> (bits & !ALL_FLAGS == 0),
            r matches Some(f) ==> f.spec_bits() == bits,
    {
        if bits & !ALL_FLAGS == 0 {
            Some(ChangedFlags { bits })
        } else {
            None
        }
    }

    /// Flags from raw bits, dropping bits that are no defined flag.
    pub fn from_bits_truncate(bits: u32) -> (r: ChangedFlags)
        ensures
            r.spec_bits() == bits & ALL_FLAGS,
    {
        ChangedFlags { bits: bits & ALL_FLAGS }
    }

    /// The raw bits.
    pub fn bits(&self) -> (r: u32)
        ensures
            r == self.spec_bits(),
    {
        self.bits
    }

    /// No flag set.
    pub fn empty() -> (r: ChangedFlags)
        ensures
            r.spec_bits() == 0,
    {
        ChangedFlags { bits: 0 }
    }

    /// Every defined flag set.
    pub fn all() -> (r: ChangedFlags)
        ensures
            r.spec_bits() == ALL_FLAGS,
    {
        ChangedFlags { bits: ALL_FLAGS }
    }

    /// Whether no flag is set.
    pub fn is_empty(&self) -> (r: bool)
        ensures
            r == (self.spec_bits() == 0),
    {
        self.bits == 0
    }

    /// Whether every flag of `other` is set here.
    pub fn contains(&self, other: ChangedFlags) -> (r: bool)
        ensures
            r == (self.spec_bits() & other.spec_bits() == other.spec_bits()),
    {
        self.bits & other.bits == other.bits
    }

    /// Whether some flag of `other` is set here.
    pub fn intersects(&self, other: ChangedFlags) -> (r: bool)
        ensures
            r == (self.spec_bits() & other.spec_bits() != 0),
    {
        self.bits & other.bits != 0
    }

    /// Sets the flags of `other`.
    pub fn insert(&mut self, other: ChangedFlags)
        ensures
            final(self).spec_bits() == old(self).spec_bits() | other.spec_bits(),
    {
        self.bits = self.bits | other.bits;
    }

    /// Clears the flags of `other`.
    pub fn remove(&mut self, other: ChangedFlags)
        ensures
            final(self).spec_bits() == old(self).spec_bits() & !other.spec_bits(),
    {
        self.bits = self.bits & !other.bits;
    }

    /// The flags set here or in `other`.
    pub fn union(self, other: ChangedFlags) -> (r: ChangedFlags)
        ensures
            r.spec_bits() == self.spec_bits() | other.spec_bits(),
    {
        ChangedFlags { bits: self.bits | other.bits }
    }
}

impl Default for ChangedFlags {
    fn default() -> (r: Self)
        ensures
            r.spec_bits() == 0,
    {
        ChangedFlags { bits: 0 }
    }
}

/// Every bit of a change notification is a defined flag, so every
/// notification that OpenThread sends decodes.
pub proof fn lemma_every_notification_decodes(bits: u32)
    ensures
        bits & !ALL_FLAGS == 0,
{
    assert(ALL_FLAGS == 0xffff_ffffu32) by (bit_vector);
    assert(bits & !0xffff_ffffu32 == 0) by (bit_vector);
}

/// After the flags of `b` are inserted into `a`, `a` contains them; after
/// they are removed from `a`, `a` holds none of them.
pub proof fn lemma_insert_remove(a: ChangedFlags, b: ChangedFlags)
    ensures
        (a.spec_bits() | b.spec_bits()) & b.spec_bits() == b.spec_bits(),
        (a.spec_bits() & !b.spec_bits()) & b.spec_bits() == 0,
{
    let x = a.spec_bits();
    let y = b.spec_bits();
    assert((x | y) & y == y) by (bit_vector);
    assert((x & !y) & y == 0) by (bit_vector);
}

} // verus!
