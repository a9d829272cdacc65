use vstd::prelude::*;

verus! {

/// An IPv6 address, held as its sixteen bytes in network order.
#[derive(Debug, Clone, Copy)]
pub struct Ipv6Address {
    pub octets: [u8; 16],
}

impl Ipv6Address {
    /// The unspecified address `::`.
    pub fn unspecified() -> (r: Ipv6Address)
        ensures
            r.octets@ == Seq::new(16, |i: int| 0u8),
    {
        let r = Ipv6Address { octets: [0u8; 16] };
        assert(r.octets@ =~= Seq::new(16, |i: int| 0u8));
        r
    }

    /// The address with these bytes.
    pub fn from_octets(octets: [u8; 16]) -> (r: Ipv6Address)
        ensures
            r == (Ipv6Address { octets }),
    {
        Ipv6Address { octets }
    }
}

/// An entry of OpenThread's list of unicast addresses, as read from the stack.
#[derive(Debug, Clone, Copy)]
pub struct RawNetifAddress {
    /// The address bytes in network order.
    pub octets: [u8; 16],
    /// The prefix length in bits.
    pub prefix_length: u8,
    /// The address origin.
    pub origin: u8,
}

/// IPv6 network interface unicast address
#[derive(Debug, Clone, Copy)]
pub struct NetworkInterfaceUnicastAddress {
    /// The IPv6 unicast address
    pub address: Ipv6Address,
    /// The Prefix length (in bits)
    pub prefix: u8,
    /// The IPv6 address origin
    pub origin: u8,
}

/// `a` is the interface address that the raw entry `r` describes.
pub open spec fn describes(a: NetworkInterfaceUnicastAddress, r: RawNetifAddress) -> bool {
    &&& a.address.octets == r.octets
    &&& a.prefix == r.prefix_length
    &&& a.origin == r.origin
}

/// The interface addresses of the first entries of OpenThread's address
/// list, as many as a list of capacity `N` holds, in list order.
pub fn collect_unicast_addresses<const N: usize>(raw: &[RawNetifAddress]) -> (r: Vec<
    NetworkInterfaceUnicastAddress,
>)
    ensures
        r@.len() == if raw@.len() < N {
            raw@.len()
        } else {
            N as nat
        },
        forall|i: int| 0 <= i < r@.len() ==> describes(#[trigger] r@[i], raw@[i]),
{
    let mut result: Vec<NetworkInterfaceUnicastAddress> = Vec::new();
    let mut i: usize = 0;
    while i < raw.len()
        invariant
            i <= raw@.len(),
            i <= N,
            result@.len() == i,
            forall|j: int| 0 <= j < i ==> describes(#[trigger] result@[j], raw@[j]),
        ensures
            result@.len() == if raw@.len() < N {
                raw@.len()
            } else {
                N as nat
            },
            forall|j: int| 0 <= j < result@.len() ==> describes(#[trigger] result@[j], raw@[j]),
        decreases raw@.len() - i,
    {
        if result.len() >= N {
            break;
        }
        let entry = raw[i];
        result.push(
            NetworkInterfaceUnicastAddress {
                address: Ipv6Address::from_octets(entry.octets),
                prefix: entry.prefix_length,
                origin: entry.origin,
            },
        );
        i += 1;
    }
    result
}

} // verus!
