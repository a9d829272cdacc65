use vstd::prelude::*;

verus! {

/// Clear channel assessment mode of the radio.
#[derive(Debug, PartialEq, Eq, Structural, Clone, Copy)]
pub enum CcaMode {
    /// Carrier only.
    Carrier,
    /// Energy detect only.
    Ed,
    /// Carrier or energy detect.
    CarrierOrEd,
    /// Carrier and energy detect.
    CarrierAndEd,
}

/// Configuration of the IEEE 802.15.4 radio driver.
#[derive(Debug, PartialEq, Eq, Structural, Clone, Copy)]
pub struct RadioConfig {
    pub auto_ack_tx: bool,
    pub auto_ack_rx: bool,
    pub enhance_ack_tx: bool,
    pub promiscuous: bool,
    pub coordinator: bool,
    pub rx_when_idle: bool,
    pub txpower: i8,
    pub channel: u8,
    pub cca_threshold: i8,
    pub cca_mode: CcaMode,
    pub pan_id: Option<u16>,
    pub short_addr: Option<u16>,
    pub ext_addr: Option<u64>,
}

/// Transmit power of the default configuration (dBm).
pub const DEFAULT_TX_POWER: i8 = 10;
/// Channel of the default configuration.
pub const DEFAULT_CHANNEL: u8 = 15;
/// CCA threshold of the default configuration.
pub const DEFAULT_CCA_THRESHOLD: i8 = 1;

/// Signal strength reported when no valid one has been received yet.
pub const FALLBACK_RSSI: i8 = 33;
/// Receive sensitivity of the radio (dBm).
pub const RECEIVE_SENSITIVITY: i8 = -120;
/// Capabilities the radio reports: none.
pub const RADIO_CAPS: u8 = 0;

impl RadioConfig {
    /// The driver's default configuration: all switches off, transmit power
    /// 10 dBm, channel 15, CCA threshold 1 in energy detect mode, no addresses.
    pub open spec fn spec_default() -> RadioConfig {
        RadioConfig {
            auto_ack_tx: false,
            auto_ack_rx: false,
            enhance_ack_tx: false,
            promiscuous: false,
            coordinator: false,
            rx_when_idle: false,
            txpower: DEFAULT_TX_POWER,
            channel: DEFAULT_CHANNEL,
            cca_threshold: DEFAULT_CCA_THRESHOLD,
            cca_mode: CcaMode::Ed,
            pan_id: None,
            short_addr: None,
            ext_addr: None,
        }
    }
}

impl Default for RadioConfig {
    fn default() -> (r: Self)
        ensures
            r == RadioConfig::spec_default(),
    {
        RadioConfig {
            auto_ack_tx: false,
            auto_ack_rx: false,
            enhance_ack_tx: false,
            promiscuous: false,
            coordinator: false,
            rx_when_idle: false,
            txpower: DEFAULT_TX_POWER,
            channel: DEFAULT_CHANNEL,
            cca_threshold: DEFAULT_CCA_THRESHOLD,
            cca_mode: CcaMode::Ed,
            pan_id: None,
            short_addr: None,
            ext_addr: None,
        }
    }
}

/// Value of a byte sequence read as a big-endian unsigned number.
pub open spec fn be_value(bytes: Seq<u8>) -> nat
    decreases bytes.len(),
{
    if bytes.len() == 0 {
        0
    } else {
        be_value(bytes.drop_last()) * 256 + bytes.last() as nat
    }
}

/// `256` raised to `n`.
pub open spec fn pow256(n: nat) -> nat
    decreases n,
{
    if n == 0 {
        1
    } else {
        256 * pow256((n - 1) as nat)
    }
}

/// A big-endian number of `n` bytes is below `256` to the `n`.
pub proof fn lemma_be_value_bound(bytes: Seq<u8>)
    ensures
        be_value(bytes) < pow256(bytes.len()),
    decreases bytes.len(),
{
    if bytes.len() > 0 {
        lemma_be_value_bound(bytes.drop_last());
    }
}

/// Reads eight bytes as a big-endian 64-bit number.
pub fn u64_from_be_bytes(bytes: &[u8; 8]) -> (r: u64)
    ensures
        r == be_value(bytes@),
{
    let mut acc: u64 = 0;
    let mut i: usize = 0;
    assert(bytes@.take(0) =~= Seq::<u8>::empty());
    while i < 8
        invariant
            i <= 8,
            bytes@.len() == 8,
            acc == be_value(bytes@.take(i as int)),
        decreases 8 - i,
    {
        proof {
            lemma_be_value_bound(bytes@.take(i as int));
            reveal_with_fuel(pow256, 9);
            assert(bytes@.take(i + 1).drop_last() =~= bytes@.take(i as int));
        }
        acc = acc * 256 + bytes[i] as u64;
        i += 1;
    }
    assert(bytes@.take(8) =~= bytes@);
    acc
}

/// Signal strength to report, given the one of the last received frame:
/// that one, unless it is `0` (nothing received yet) or not below `127`.
pub open spec fn spec_reported_rssi(last_rssi: i8) -> i8 {
    if last_rssi == 0 || last_rssi >= 127 {
        FALLBACK_RSSI
    } else {
        last_rssi
    }
}

/// The signal strength that the radio reports, from the one of the last received frame.
pub fn reported_rssi(last_rssi: i8) -> (r: i8)
    ensures
        r == spec_reported_rssi(last_rssi),
{
    if last_rssi == 0 || last_rssi >= 127 {
        FALLBACK_RSSI
    } else {
        last_rssi
    }
}

/// The radio configuration that the platform layer keeps: empty until the
/// first write, and read as the default configuration while empty.
#[derive(Debug)]
pub struct RadioSettings {
    config: Option<RadioConfig>,
}

impl RadioSettings {
    /// The stored configuration, if any was written.
    pub closed spec fn stored(self) -> Option<RadioConfig> {
        self.config
    }

    /// The configuration that a read gives: the stored one, or the default.
    pub open spec fn current(self) -> RadioConfig {
        match self.stored() {
            Some(c) => c,
            None => RadioConfig::spec_default(),
        }
    }

    /// An empty store.
    pub fn new() -> (r: RadioSettings)
        ensures
            r.stored() is None,
    {
        RadioSettings { config: None }
    }

    /// Reads the configuration.
    pub fn get(&self) -> (r: RadioConfig)
        ensures
            r == self.current(),
    {
        match self.config {
            Some(c) => c,
            None => RadioConfig::default(),
        }
    }

    /// Stores a configuration.
    pub fn set(&mut self, config: RadioConfig)
        ensures
            final(self).stored() == Some(config),
    {
        self.config = Some(config);
    }

    /// Transmit power of the current configuration.
    pub fn transmit_power(&self) -> (r: i8)
        ensures
            r == self.current().txpower,
    {
        self.get().txpower
    }

    /// Whether the current configuration is promiscuous.
    pub fn promiscuous(&self) -> (r: bool)
        ensures
            r == self.current().promiscuous,
    {
        self.get().promiscuous
    }

    /// Switches promiscuous mode; returns the stored configuration that is
    /// to be applied to the radio.
    pub fn set_promiscuous(&mut self, enable: bool) -> (r: RadioConfig)
        ensures
            r == (RadioConfig { promiscuous: enable, ..old(self).current() }),
            final(self).stored() == Some(r),
    {
        let config = RadioConfig { promiscuous: enable, ..self.get() };
        self.set(config);
        config
    }

    /// Sets the extended address from its eight big-endian bytes; returns
    /// the stored configuration that is to be applied to the radio.
    pub fn set_extended_address(&mut self, address: &[u8; 8]) -> (r: RadioConfig)
        ensures
            r == (RadioConfig { ext_addr: Some(be_value(address@) as u64), ..old(self).current() }),
            final(self).stored() == Some(r),
    {
        let ext_addr = u64_from_be_bytes(address);
        let config = RadioConfig { ext_addr: Some(ext_addr), ..self.get() };
        self.set(config);
        config
    }

    /// Sets the short address; returns the stored configuration that is to
    /// be applied to the radio.
    pub fn set_short_address(&mut self, address: u16) -> (r: RadioConfig)
        ensures
            r == (RadioConfig { short_addr: Some(address), ..old(self).current() }),
            final(self).stored() == Some(r),
    {
        let config = RadioConfig { short_addr: Some(address), ..self.get() };
        self.set(config);
        config
    }

    /// Sets the PAN ID; returns the stored configuration that is to be
    /// applied to the radio.
    pub fn set_pan_id(&mut self, pan_id: u16) -> (r: RadioConfig)
        ensures
            r == (RadioConfig { pan_id: Some(pan_id), ..old(self).current() }),
            final(self).stored() == Some(r),
    {
        let config = RadioConfig { pan_id: Some(pan_id), ..self.get() };
        self.set(config);
        config
    }

    /// Tunes to a channel before a transmission or a reception; returns the
    /// stored configuration that is to be applied to the radio.
    pub fn set_channel(&mut self, channel: u8) -> (r: RadioConfig)
        ensures
            r == (RadioConfig { channel, ..old(self).current() }),
            final(self).stored() == Some(r),
    {
        let config = RadioConfig { channel, ..self.get() };
        self.set(config);
        config
    }
}

/// A read gives back the configuration that was last written; before any
/// write it gives the driver's default configuration.
pub proof fn lemma_radio_read_back(s: RadioSettings)
    ensures
        s.stored() matches Some(c) ==> s.current() == c,
        s.stored() is None ==> s.current() == RadioConfig::spec_default(),
{
}

} // verus!
