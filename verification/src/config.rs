//! What the daemon is configured to watch.
//!
//! The file that holds the configuration is read and parsed by the caller. Here
//! it is a list of named peripherals, in the order in which the caller walked
//! its table, and at most one pair of buds.

use vstd::prelude::*;
use crate::status::text_view;

verus! {

/// A peripheral to watch: its address as text, the text to show beside its
/// battery level, and its kind. Only the kind `bluetooth` is watched.
#[derive(Debug)]
pub struct DeviceConfig {
    pub mac: String,
    pub text: Option<String>,
    pub device_type: String,
}

/// What a [`DeviceConfig`] says.
pub struct DeviceConfigView {
    pub mac: Seq<char>,
    pub text: Option<Seq<char>>,
    pub device_type: Seq<char>,
}

impl View for DeviceConfig {
    type V = DeviceConfigView;

    open spec fn view(&self) -> DeviceConfigView {
        DeviceConfigView {
            mac: self.mac@,
            text: text_view(self.text),
            device_type: self.device_type@,
        }
    }
}

/// The buds to stream from: their address as text.
#[derive(Debug)]
pub struct BudsConfig {
    pub mac: String,
}

/// The whole configuration: the peripherals by name, and the buds if any.
#[derive(Debug)]
pub struct Config {
    pub devices: Vec<(String, DeviceConfig)>,
    pub buds: Option<BudsConfig>,
}

/// What a [`Config`] says.
pub struct ConfigView {
    pub devices: Seq<(Seq<char>, DeviceConfigView)>,
    pub buds: Option<Seq<char>>,
}

impl View for Config {
    type V = ConfigView;

    open spec fn view(&self) -> ConfigView {
        ConfigView {
            devices: self.devices@.map_values(|d: (String, DeviceConfig)| (d.0@, d.1@)),
            buds: match self.buds {
                Some(b) => Some(b.mac@),
                None => None,
            },
        }
    }
}

impl ConfigView {
    /// Whether no name is configured twice, as in the table that the list was
    /// made from.
    pub open spec fn names_are_distinct(self) -> bool {
        forall|i: int, j: int|
            0 <= i < j < self.devices.len() ==> self.devices[i].0 != self.devices[j].0
    }
}

impl DeviceConfig {
    /// Whether the peripheral is of the one kind that is watched.
    pub fn is_bluetooth(&self) -> (b: bool)
        ensures
            b == (self@.device_type == "bluetooth"@),
    {
        let kind = "bluetooth".to_owned();
        self.device_type == kind
    }
}

impl Config {
    /// The configuration that stands in when none can be loaded: nothing to watch.
    pub fn empty() -> (config: Self)
        ensures
            config@.devices.len() == 0,
            config@.buds is None,
    {
        Config { devices: Vec::new(), buds: None }
    }

    /// Whether any peripheral is configured. Without one, the source that watches
    /// the peripherals has no work and ends.
    pub fn has_devices(&self) -> (b: bool)
        ensures
            b == (self@.devices.len() > 0),
    {
        self.devices.len() > 0
    }

    /// Whether no name is configured twice.
    pub fn names_are_distinct(&self) -> (b: bool)
        ensures
            b == self@.names_are_distinct(),
    {
        let mut j: usize = 0;
        while j < self.devices.len()
            invariant
                j <= self.devices.len(),
                forall|a: int, b: int| 0 <= a < b < j ==> self@.devices[a].0 != self@.devices[b].0,
            decreases self.devices.len() - j,
        {
            let mut i: usize = 0;
            while i < j
                invariant
                    i <= j < self.devices.len(),
                    forall|a: int| 0 <= a < i ==> self@.devices[a].0 != self@.devices[j as int].0,
                decreases j - i,
            {
                if self.devices[i].0 == self.devices[j].0 {
                    assert(self@.devices[i as int].0 == self@.devices[j as int].0);
                    return false;
                }
                i += 1;
            }
            j += 1;
        }
        true
    }
}

} // verus!
