//! The source that watches the peripherals other than the earbuds.
//!
//! Every cycle rebuilds the whole list. The caller asks [`probe_target`] which
//! of the configured peripherals to look at, finds out whether each of them is
//! connected and what its battery reports, and hands the observations to
//! [`rebuild_devices`]. The list that comes back replaces the one in the shared
//! snapshot, and the merged snapshot is announced after every cycle, changed or
//! not.

use vstd::prelude::*;
use vstd::string::StringExecFns;
use std::str::FromStr;
use crate::config::{Config, ConfigView, DeviceConfig, DeviceConfigView};
use crate::status::{
    clone_text, devices_view, BatteryStatus, GenericDeviceStatus, GenericDeviceView,
};

verus! {

/// Seconds after which the list is rebuilt whatever has happened.
pub const POLL_INTERVAL_SECS: u64 = 30;

/// Seconds that the caller waits to learn whether a peripheral is connected.
pub const CONNECTED_TIMEOUT_SECS: u64 = 2;

/// Nanoseconds that must have passed since the last rebuild that an adapter event
/// caused, for the next event to cause one: half a second.
pub const DEBOUNCE_NANOS: u128 = 500_000_000;

/// What the caller found out about one configured peripheral.
#[derive(Debug, Clone, Copy, PartialEq, Eq)]
pub enum Observation {
    /// The peripheral was not looked at.
    NotProbed,
    /// The adapter does not know it, it is not connected, or the answer did not
    /// come in time.
    Unreachable,
    /// It is connected; `battery` is the percentage that it reports, if it can
    /// be read.
    Connected { battery: Option<u8> },
}

/// The address that `Address::from_str` of the Bluetooth library reads from a
/// text: six bytes, or nothing where it rejects the text.
pub uninterp spec fn parsed_address(mac: Seq<char>) -> Option<Seq<u8>>;

/// `bluer::Address::from_str`: reads an address from text. The result depends on
/// the text alone; the contract gives it a name and says no more of it.
#[verifier::external_body]
pub(crate) fn parse_address(mac: &str) -> (address: Option<[u8; 6]>)
    ensures
        match address {
            Some(bytes) => parsed_address(mac@) == Some(bytes@),
            None => parsed_address(mac@) is None,
        },
{
    match bluer::Address::from_str(mac) {
        Ok(address) => Some(address.0),
        Err(_) => None,
    }
}

/// The percentage that an observation holds: that of a connected peripheral
/// whose battery could be read.
pub open spec fn battery_seen(observation: Observation) -> Option<u8> {
    match observation {
        Observation::Connected { battery } => battery,
        _ => None,
    }
}

/// Whether a configured peripheral is looked at: it is of the kind `bluetooth`
/// and its address, once read, is there.
pub open spec fn is_target(device: DeviceConfigView, address: Option<Seq<u8>>) -> bool {
    device.device_type == "bluetooth"@ && address is Some
}

/// The entry of one configured peripheral in the rebuilt list, given its address
/// as read and what was observed of it. It has an entry only if it is looked at,
/// connected, and its battery could be read; the entry says `Discharging`, as
/// charging cannot be observed.
pub open spec fn listed(
    name: Seq<char>,
    device: DeviceConfigView,
    address: Option<Seq<u8>>,
    observation: Observation,
) -> Option<GenericDeviceView> {
    if is_target(device, address) {
        match battery_seen(observation) {
            Some(battery) => Some(
                GenericDeviceView {
                    name,
                    battery,
                    text: device.text,
                    status: BatteryStatus::Discharging,
                },
            ),
            None => None,
        }
    } else {
        None
    }
}

/// What was observed of the peripheral at position `i`; a peripheral beyond the
/// end of the observations was not looked at.
pub open spec fn observed(observations: Seq<Observation>, i: int) -> Observation {
    if 0 <= i < observations.len() {
        observations[i]
    } else {
        Observation::NotProbed
    }
}

/// The entry of the configured peripheral at position `i`.
pub open spec fn listed_at(config: ConfigView, observations: Seq<Observation>, i: int) -> Option<
    GenericDeviceView,
> {
    listed(
        config.devices[i].0,
        config.devices[i].1,
        parsed_address(config.devices[i].1.mac),
        observed(observations, i),
    )
}

/// The rebuilt list for the first `n` configured peripherals: the entries of
/// those that have one, in the order of the configuration.
pub open spec fn rebuilt(config: ConfigView, observations: Seq<Observation>, n: int) -> Seq<
    GenericDeviceView,
>
    decreases n,
{
    if n <= 0 {
        Seq::empty()
    } else {
        match listed_at(config, observations, n - 1) {
            Some(entry) => rebuilt(config, observations, n - 1).push(entry),
            None => rebuilt(config, observations, n - 1),
        }
    }
}

/// The address to look at for a configured peripheral, or nothing if it is not
/// to be looked at: it is of another kind, or its address cannot be read.
pub fn probe_target(device: &DeviceConfig) -> (target: Option<[u8; 6]>)
    ensures
        match target {
            Some(bytes) => is_target(device@, parsed_address(device@.mac))
                && parsed_address(device@.mac) == Some(bytes@),
            None => !is_target(device@, parsed_address(device@.mac)),
        },
{
    if !device.is_bluetooth() {
        return None;
    }
    parse_address(device.mac.as_str())
}

/// The entry of one configured peripheral, given its address as read and what
/// was observed of it.
pub fn device_entry(
    name: &String,
    device: &DeviceConfig,
    address: Option<[u8; 6]>,
    observation: Observation,
) -> (entry: Option<GenericDeviceStatus>)
    ensures
        match entry {
            Some(e) => listed(
                name@,
                device@,
                match address {
                    Some(a) => Some(a@),
                    None => None,
                },
                observation,
            ) == Some(e@),
            None => listed(
                name@,
                device@,
                match address {
                    Some(a) => Some(a@),
                    None => None,
                },
                observation,
            ) is None,
        },
{
    if !device.is_bluetooth() || address.is_none() {
        return None;
    }
    match observation {
        Observation::Connected { battery: Some(battery) } => Some(
            GenericDeviceStatus {
                name: name.clone(),
                battery,
                text: clone_text(&device.text),
                status: BatteryStatus::Discharging,
            },
        ),
        _ => None,
    }
}

/// Rebuilds the list of peripherals from the configuration and from what was
/// observed of each configured peripheral, position by position.
pub fn rebuild_devices(config: &Config, observations: &Vec<Observation>) -> (devices: Vec<
    GenericDeviceStatus,
>)
    ensures
        devices_view(devices@) == rebuilt(config@, observations@, config@.devices.len() as int),
{
    let mut out: Vec<GenericDeviceStatus> = Vec::new();
    let mut i: usize = 0;
    assert(devices_view(out@) =~= rebuilt(config@, observations@, 0));
    while i < config.devices.len()
        invariant
            i <= config.devices.len(),
            config@.devices.len() == config.devices.len(),
            devices_view(out@) == rebuilt(config@, observations@, i as int),
        decreases config.devices.len() - i,
    {
        let observation = if i < observations.len() {
            observations[i]
        } else {
            Observation::NotProbed
        };
        let address = parse_address(config.devices[i].1.mac.as_str());
        let ghost before = out@;
        match device_entry(&config.devices[i].0, &config.devices[i].1, address, observation) {
            Some(entry) => {
                out.push(entry);
                assert(devices_view(out@) =~= devices_view(before).push(entry@));
            },
            None => {},
        }
        i += 1;
    }
    out
}

/// The rebuilt list holds the entry of every configured peripheral that has one,
/// and nothing else.
pub proof fn lemma_rebuilt_members(
    config: ConfigView,
    observations: Seq<Observation>,
    n: int,
    entry: GenericDeviceView,
)
    ensures
        rebuilt(config, observations, n).contains(entry) <==> exists|i: int|
            0 <= i < n && #[trigger] listed_at(config, observations, i) == Some(entry),
    decreases n,
{
    if n > 0 {
        lemma_rebuilt_members(config, observations, n - 1, entry);
        let before = rebuilt(config, observations, n - 1);
        match listed_at(config, observations, n - 1) {
            Some(last) => {
                assert(before.push(last).contains(entry) <==> before.contains(entry) || last
                    == entry) by {
                    if before.contains(entry) {
                        let k = choose|k: int| 0 <= k < before.len() && before[k] == entry;
                        assert(before.push(last)[k] == entry);
                    }
                    if last == entry {
                        assert(before.push(last)[before.len() as int] == entry);
                    }
                }
            },
            None => {},
        }
    }
}

/// How many of the first `n` configured peripherals have an entry.
pub open spec fn count_listed(config: ConfigView, observations: Seq<Observation>, n: int) -> nat
    decreases n,
{
    if n <= 0 {
        0
    } else {
        count_listed(config, observations, n - 1) + (if listed_at(config, observations, n - 1)
            is Some {
            1nat
        } else {
            0nat
        })
    }
}

/// The rebuilt list is as long as there are peripherals with an entry, and every
/// entry says `Discharging`.
pub proof fn lemma_rebuilt_shape(config: ConfigView, observations: Seq<Observation>, n: int)
    ensures
        rebuilt(config, observations, n).len() == count_listed(config, observations, n),
        rebuilt(config, observations, n).len() <= (if n <= 0 {
            0
        } else {
            n
        }),
        forall|k: int|
            0 <= k < rebuilt(config, observations, n).len() ==> (#[trigger] rebuilt(
                config,
                observations,
                n,
            )[k]).status == BatteryStatus::Discharging,
    decreases n,
{
    if n > 0 {
        lemma_rebuilt_shape(config, observations, n - 1);
    }
}

/// Where names are configured once each, no name has two entries in the rebuilt
/// list.
pub proof fn lemma_rebuilt_names_distinct(
    config: ConfigView,
    observations: Seq<Observation>,
    n: int,
)
    requires
        config.names_are_distinct(),
        n <= config.devices.len(),
    ensures
        forall|a: int, b: int|
            0 <= a < b < rebuilt(config, observations, n).len() ==> rebuilt(
                config,
                observations,
                n,
            )[a].name != rebuilt(config, observations, n)[b].name,
    decreases n,
{
    if n > 0 {
        lemma_rebuilt_names_distinct(config, observations, n - 1);
        let before = rebuilt(config, observations, n - 1);
        match listed_at(config, observations, n - 1) {
            Some(last) => {
                assert forall|a: int| 0 <= a < before.len() implies before[a].name
                    != last.name by {
                    assert(before.contains(before[a]));
                    lemma_rebuilt_members(config, observations, n - 1, before[a]);
                    let i = choose|i: int|
                        0 <= i < n - 1 && #[trigger] listed_at(config, observations, i) == Some(
                            before[a],
                        );
                    assert(before[a].name == config.devices[i].0);
                    assert(last.name == config.devices[n - 1].0);
                }
            },
            None => {},
        }
    }
}

/// What makes the source think of rebuilding the list.
#[derive(Debug, Clone, Copy, PartialEq, Eq, Structural)]
pub enum Trigger {
    /// The polling interval has passed.
    Poll,
    /// The adapter reported a device added, removed or changed.
    AdapterEvent,
}

/// Keeps rebuilds that adapter events cause at least half a second apart.
#[derive(Debug, Clone, Copy)]
pub struct Debounce {
    /// When an adapter event last caused a rebuild, in nanoseconds of a clock
    /// that does not go back.
    pub last: u128,
}

/// The time between two readings of the clock; none if the clock went back.
pub open spec fn elapsed(last: u128, now: u128) -> int {
    if now >= last {
        now - last
    } else {
        0
    }
}

/// Whether a trigger at `now` leads to a rebuild: a poll always, an adapter
/// event only if more than half a second has passed since the last one that did.
pub open spec fn fires(trigger: Trigger, last: u128, now: u128) -> bool {
    trigger == Trigger::Poll || elapsed(last, now) > DEBOUNCE_NANOS
}

impl Debounce {
    /// Starts the window at `now`, the time of the first rebuild.
    pub fn new(now: u128) -> (debounce: Self)
        ensures
            debounce.last == now,
    {
        Debounce { last: now }
    }

    /// Says whether a trigger at `now` leads to a rebuild. An adapter event that
    /// does starts the window anew; a poll leaves the window as it is.
    pub fn on_trigger(&mut self, trigger: Trigger, now: u128) -> (rebuild: bool)
        ensures
            rebuild == fires(trigger, old(self).last, now),
            final(self).last == (if trigger == Trigger::AdapterEvent && rebuild {
                now
            } else {
                old(self).last
            }),
    {
        match trigger {
            Trigger::Poll => true,
            Trigger::AdapterEvent => {
                if now >= self.last && now - self.last > DEBOUNCE_NANOS {
                    self.last = now;
                    true
                } else {
                    false
                }
            },
        }
    }
}

/// After an adapter event has caused a rebuild, no further event causes one for
/// half a second.
pub proof fn lemma_debounced(last: u128, first: u128, second: u128)
    requires
        fires(Trigger::AdapterEvent, last, first),
        first <= second,
        second - first <= DEBOUNCE_NANOS,
    ensures
        !fires(Trigger::AdapterEvent, first, second),
{
}

/// The digit that stands for a number below sixteen, in upper case.
pub open spec fn hex_digit(n: int) -> char {
    if n == 0 {
        '0'
    } else if n == 1 {
        '1'
    } else if n == 2 {
        '2'
    } else if n == 3 {
        '3'
    } else if n == 4 {
        '4'
    } else if n == 5 {
        '5'
    } else if n == 6 {
        '6'
    } else if n == 7 {
        '7'
    } else if n == 8 {
        '8'
    } else if n == 9 {
        '9'
    } else if n == 10 {
        'A'
    } else if n == 11 {
        'B'
    } else if n == 12 {
        'C'
    } else if n == 13 {
        'D'
    } else if n == 14 {
        'E'
    } else {
        'F'
    }
}

/// The two digits of a byte.
pub open spec fn hex_pair(byte: u8) -> Seq<char> {
    seq![hex_digit(byte as int / 16), hex_digit(byte as int % 16)]
}

/// The six bytes of an address as pairs of digits with `_` between them.
pub open spec fn address_path_text(address: Seq<u8>) -> Seq<char> {
    hex_pair(address[0]) + seq!['_'] + hex_pair(address[1]) + seq!['_'] + hex_pair(address[2])
        + seq!['_'] + hex_pair(address[3]) + seq!['_'] + hex_pair(address[4]) + seq!['_']
        + hex_pair(address[5])
}

/// The path under which the Bluetooth stack publishes a device of an adapter.
pub open spec fn object_path(adapter: Seq<char>, address: Seq<u8>) -> Seq<char> {
    "/org/bluez/"@ + adapter + "/dev_"@ + address_path_text(address)
}

fn hex_digit_text(n: u8) -> (digit: &'static str)
    requires
        n < 16,
    ensures
        digit@ == seq![hex_digit(n as int)],
{
    proof {
        reveal_strlit("0");
        reveal_strlit("1");
        reveal_strlit("2");
        reveal_strlit("3");
        reveal_strlit("4");
        reveal_strlit("5");
        reveal_strlit("6");
        reveal_strlit("7");
        reveal_strlit("8");
        reveal_strlit("9");
        reveal_strlit("A");
        reveal_strlit("B");
        reveal_strlit("C");
        reveal_strlit("D");
        reveal_strlit("E");
        reveal_strlit("F");
    }
    let digit = match n {
        0 => "0",
        1 => "1",
        2 => "2",
        3 => "3",
        4 => "4",
        5 => "5",
        6 => "6",
        7 => "7",
        8 => "8",
        9 => "9",
        10 => "A",
        11 => "B",
        12 => "C",
        13 => "D",
        14 => "E",
        _ => "F",
    };
    assert(digit@ =~= seq![hex_digit(n as int)]);
    digit
}

fn push_hex_pair(text: &mut String, byte: u8)
    ensures
        final(text)@ == old(text)@ + hex_pair(byte),
{
    text.append(hex_digit_text(byte / 16));
    text.append(hex_digit_text(byte % 16));
    assert(text@ =~= old(text)@ + hex_pair(byte));
}

/// The path under which the Bluetooth stack publishes the device with this
/// address on the adapter of this name; its battery is read there.
pub fn battery_object_path(adapter_name: &str, address: &[u8; 6]) -> (path: String)
    ensures
        path@ == object_path(adapter_name@, address@),
{
    let mut path: String = "/org/bluez/".to_owned();
    path.append(adapter_name);
    path.append("/dev_");
    let ghost head = path@;
    proof {
        reveal_strlit("_");
    }
    push_hex_pair(&mut path, address[0]);
    path.append("_");
    push_hex_pair(&mut path, address[1]);
    path.append("_");
    push_hex_pair(&mut path, address[2]);
    path.append("_");
    push_hex_pair(&mut path, address[3]);
    path.append("_");
    push_hex_pair(&mut path, address[4]);
    path.append("_");
    push_hex_pair(&mut path, address[5]);
    assert("_"@ =~= seq!['_']);
    assert(path@ =~= head + address_path_text(address@));
    assert(path@ =~= object_path(adapter_name@, address@));
    path
}

} // verus!
