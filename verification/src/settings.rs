use vstd::prelude::*;

verus! {

/// Network parameters that the platform layer keeps beside the radio configuration.
#[derive(Debug, PartialEq, Eq, Structural, Clone, Copy)]
pub struct NetworkSettings {
    pub promiscuous: bool,
    pub ext_address: u64,
    pub short_address: u16,
    pub pan_id: u16,
    pub channel: u8,
}

impl NetworkSettings {
    /// All parameters zero or off.
    pub open spec fn spec_default() -> NetworkSettings {
        NetworkSettings { promiscuous: false, ext_address: 0, short_address: 0, pan_id: 0, channel: 0 }
    }
}

impl Default for NetworkSettings {
    fn default() -> (r: Self)
        ensures
            r == NetworkSettings::spec_default(),
    {
        NetworkSettings { promiscuous: false, ext_address: 0, short_address: 0, pan_id: 0, channel: 0 }
    }
}

/// The network settings that the platform layer keeps: empty until the
/// first write, and read as the default settings while empty.
#[derive(Debug)]
pub struct SettingsStore {
    settings: Option<NetworkSettings>,
}

impl SettingsStore {
    /// The stored settings, if any were written since the store was made or cleared.
    pub closed spec fn stored(self) -> Option<NetworkSettings> {
        self.settings
    }

    /// The settings that a read gives: the stored ones, or the default.
    pub open spec fn current(self) -> NetworkSettings {
        match self.stored() {
            Some(s) => s,
            None => NetworkSettings::spec_default(),
        }
    }

    /// An empty store.
    pub fn new() -> (r: SettingsStore)
        ensures
            r.stored() is None,
    {
        SettingsStore { settings: None }
    }

    /// Reads the settings.
    pub fn get(&self) -> (r: NetworkSettings)
        ensures
            r == self.current(),
    {
        match self.settings {
            Some(s) => s,
            None => NetworkSettings::default(),
        }
    }

    /// Stores settings.
    pub fn set(&mut self, settings: NetworkSettings)
        ensures
            final(self).stored() == Some(settings),
    {
        self.settings = Some(settings);
    }

    /// Forgets the stored settings, as when the OpenThread instance is dropped.
    pub fn clear(&mut self)
        ensures
            final(self).stored() is None,
    {
        self.settings = None;
    }
}

/// A read gives back what was last written; before any write, and after a
/// clear, it gives the default settings.
pub proof fn lemma_settings_read_back(s: SettingsStore)
    ensures
        s.stored() matches Some(x) ==> s.current() == x,
        s.stored() is None ==> s.current() == NetworkSettings::spec_default(),
{
}

} // verus!
