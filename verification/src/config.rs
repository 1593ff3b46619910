use vstd::prelude::*;

verus! {

/// The reporting mode of the SDS011 sensor.
#[derive(PartialEq, Eq, Copy, Clone, Debug, Structural)]
pub enum DeviceMode {
    /// In Active mode, the sensor automatically reports data.
    Active,
    /// In Passive mode, the sensor only reports data when queried.
    Passive,
}

/// The two-byte identifier by which a command addresses a sensor.
#[derive(PartialEq, Eq, Copy, Clone, Debug, Structural)]
pub struct DeviceID {
    /// The first byte of the device ID.
    pub id1: u8,
    /// The second byte of the device ID.
    pub id2: u8,
}

impl Default for DeviceID {
    /// The identifier `0xFFFF`, which every sensor answers to.
    fn default() -> (r: DeviceID)
        ensures
            r.id1 == 0xff,
            r.id2 == 0xff,
    {
        DeviceID { id1: 0xff, id2: 0xff }
    }
}

/// Configuration settings for the SDS011 sensor.
#[derive(Debug, Copy, Clone, PartialEq, Eq, Structural)]
pub struct Config {
    /// The device ID.
    pub id: DeviceID,
    /// The operating mode of the sensor.
    pub mode: DeviceMode,
}

impl Config {
    /// Creates a configuration with the given ID and mode.
    pub fn new(id: DeviceID, mode: DeviceMode) -> (r: Config)
        ensures
            r.id == id,
            r.mode == mode,
    {
        Config { id, mode }
    }

    /// Returns this configuration with its device ID replaced by `id`.
    pub fn id(self, id: DeviceID) -> (r: Self)
        ensures
            r.id == id,
            r.mode == self.mode,
    {
        let mut c = self;
        c.id = id;
        c
    }

    /// Returns this configuration with its mode replaced by `mode`.
    pub fn mode(self, mode: DeviceMode) -> (r: Self)
        ensures
            r.id == self.id,
            r.mode == mode,
    {
        let mut c = self;
        c.mode = mode;
        c
    }
}

impl Default for Config {
    /// The default configuration: device ID `0xFFFF` and `Passive` mode.
    fn default() -> (r: Config)
        ensures
            r.id == (DeviceID { id1: 0xff, id2: 0xff }),
            r.mode == DeviceMode::Passive,
    {
        Config { id: DeviceID::default(), mode: DeviceMode::Passive }
    }
}

} // verus!
