use vstd::prelude::*;

verus! {

/// The link mode word after the three mode flags are set: bit 0 receive on
/// when idle, bit 1 full Thread device, bit 2 full network data; the other
/// bits of `current` are kept.
pub open spec fn spec_link_mode_bits(current: u8, rx_on_when_idle: bool, device_type: bool, network_data: bool) -> int {
    (current / 8) * 8 + (if rx_on_when_idle {
        1int
    } else {
        0
    }) + (if device_type {
        2int
    } else {
        0
    }) + (if network_data {
        4int
    } else {
        0
    })
}

/// Sets the three mode flags in a link mode word.
pub fn link_mode_bits(current: u8, rx_on_when_idle: bool, device_type: bool, network_data: bool) -> (r: u8)
    ensures
        r as int == spec_link_mode_bits(current, rx_on_when_idle, device_type, network_data),
{
    let base = current & 0xf8;
    assert(base == (current / 8) * 8 && base <= 248) by (bit_vector)
        requires
            base == current & 0xf8,
    ;
    let mut r = base;
    if rx_on_when_idle {
        r = r + 1;
    }
    if device_type {
        r = r + 2;
    }
    if network_data {
        r = r + 4;
    }
    r
}

/// Each of the three mode flags reads back from the word as it was set,
/// and the other bits are those of the old word.
pub proof fn lemma_link_mode_read_back(current: u8, rx_on_when_idle: bool, device_type: bool, network_data: bool)
    ensures
        ({
            let w = spec_link_mode_bits(current, rx_on_when_idle, device_type, network_data);
            &&& (w % 2 == 1) == rx_on_when_idle
            &&& ((w / 2) % 2 == 1) == device_type
            &&& ((w / 4) % 2 == 1) == network_data
            &&& w / 8 == current / 8
        }),
{
}

} // verus!
