//! The battery frame: up to three entries, one for each part that reports.
//!
//! A frame is the six marker bytes, a count `n` of at most three, and `n` entries
//! of five bytes: the part, a marker, the level, the charging state, a marker.
//! An entry with a wrong marker, an unknown part or an unknown state is passed
//! over; the others are read in order, a later entry for a part replacing an
//! earlier one.

use vstd::prelude::*;
use crate::airpods_consts::{starts_with, BATTERY_STATUS};
use crate::status;

verus! {

/// Length of the marker and the count byte together.
pub const HEADER_LEN: usize = 7;

/// Length of one entry.
pub const ENTRY_LEN: usize = 5;

/// The byte that an entry carries at its second and at its last position.
pub const ENTRY_MARKER: u8 = 0x01;

/// What a battery frame reports.
#[derive(Debug, Clone, Copy)]
pub struct BatteryPacket {
    pub left: Option<ComponentStatus>,
    pub right: Option<ComponentStatus>,
    pub case: Option<ComponentStatus>,
    pub primary: Pod,
}

impl Default for BatteryPacket {
    fn default() -> (r: Self)
        ensures
            r == BatteryPacket::silent(),
    {
        BatteryPacket { left: None, right: None, case: None, primary: Pod::Neither }
    }
}

/// Level and charging state of one part, as the frame gives them.
#[derive(Debug, Clone, Copy, PartialEq, Eq, Structural)]
pub struct ComponentStatus {
    pub level: u8,
    pub status: BatteryStatus,
}

/// One of the two earbuds, or neither.
#[derive(Debug, PartialEq, Eq, Clone, Copy, Structural)]
pub enum Pod {
    Left,
    Right,
    Neither,
}

impl Default for Pod {
    fn default() -> (r: Self)
        ensures
            r == Pod::Neither,
    {
        Pod::Neither
    }
}

/// Charging state of a part, as the frame encodes it.
#[derive(Debug, Clone, Copy, PartialEq, Eq, Structural)]
pub enum BatteryStatus {
    Charging,
    Discharging,
    Disconnected,
}

/// The part that an entry speaks of.
#[derive(Debug, Clone, Copy, PartialEq, Eq, Structural)]
pub enum Component {
    Right,
    Left,
    Case,
}

/// The part that a byte stands for: `0x02` right, `0x04` left, `0x08` case.
pub open spec fn component_of(byte: u8) -> Option<Component> {
    if byte == 0x02 {
        Some(Component::Right)
    } else if byte == 0x04 {
        Some(Component::Left)
    } else if byte == 0x08 {
        Some(Component::Case)
    } else {
        None
    }
}

/// The charging state that a byte stands for: `0x01` charging, `0x02`
/// discharging, `0x04` disconnected.
pub open spec fn status_of(byte: u8) -> Option<BatteryStatus> {
    if byte == 0x01 {
        Some(BatteryStatus::Charging)
    } else if byte == 0x02 {
        Some(BatteryStatus::Discharging)
    } else if byte == 0x04 {
        Some(BatteryStatus::Disconnected)
    } else {
        None
    }
}

/// The earbud that a part is; the case is neither.
pub open spec fn pod_of(part: Component) -> Pod {
    match part {
        Component::Left => Pod::Left,
        Component::Right => Pod::Right,
        Component::Case => Pod::Neither,
    }
}

/// Whether `raw` has the shape of a battery frame: the marker, a count of at most
/// three, and exactly that many entries.
pub open spec fn is_battery_frame(raw: Seq<u8>) -> bool {
    &&& BATTERY_STATUS@.is_prefix_of(raw)
    &&& raw.len() > 6
    &&& raw[6] <= 3
    &&& raw.len() == 7 + 5 * raw[6]
}

/// What entry `i` of a frame reports; nothing if the entry is passed over.
pub open spec fn entry(raw: Seq<u8>, i: int) -> Option<(Component, ComponentStatus)> {
    let at = 7 + 5 * i;
    if raw[at + 1] == ENTRY_MARKER && raw[at + 4] == ENTRY_MARKER {
        match (component_of(raw[at]), status_of(raw[at + 3])) {
            (Some(part), Some(status)) => Some(
                (part, ComponentStatus { level: raw[at + 2], status }),
            ),
            _ => None,
        }
    } else {
        None
    }
}

/// Whether entry `i` is read and speaks of `part`.
pub open spec fn reports(raw: Seq<u8>, i: int, part: Component) -> bool {
    entry(raw, i) matches Some(e) && e.0 == part
}

/// Whether entry `i` is read and speaks of an earbud.
pub open spec fn names_pod(raw: Seq<u8>, i: int) -> bool {
    entry(raw, i) matches Some(e) && pod_of(e.0) != Pod::Neither
}

/// What the last of the first `n` entries that speaks of `part` reports, in a
/// frame of at most three entries.
pub open spec fn last_report(raw: Seq<u8>, part: Component, n: int) -> Option<ComponentStatus> {
    if n >= 3 && reports(raw, 2, part) {
        Some(entry(raw, 2).unwrap().1)
    } else if n >= 2 && reports(raw, 1, part) {
        Some(entry(raw, 1).unwrap().1)
    } else if n >= 1 && reports(raw, 0, part) {
        Some(entry(raw, 0).unwrap().1)
    } else {
        None
    }
}

/// The earbud of the first of the first `n` entries that speaks of an earbud, in
/// a frame of at most three entries.
pub open spec fn first_pod(raw: Seq<u8>, n: int) -> Pod {
    if n >= 1 && names_pod(raw, 0) {
        pod_of(entry(raw, 0).unwrap().0)
    } else if n >= 2 && names_pod(raw, 1) {
        pod_of(entry(raw, 1).unwrap().0)
    } else if n >= 3 && names_pod(raw, 2) {
        pod_of(entry(raw, 2).unwrap().0)
    } else {
        Pod::Neither
    }
}

/// What a frame reports; nothing if `raw` is no battery frame.
pub open spec fn parsed(raw: Seq<u8>) -> Option<BatteryPacket> {
    if is_battery_frame(raw) {
        let n = raw[6] as int;
        Some(
            BatteryPacket {
                left: last_report(raw, Component::Left, n),
                right: last_report(raw, Component::Right, n),
                case: last_report(raw, Component::Case, n),
                primary: first_pod(raw, n),
            },
        )
    } else {
        None
    }
}

impl BatteryPacket {
    /// A packet that reports no part.
    pub open spec fn silent() -> BatteryPacket {
        BatteryPacket { left: None, right: None, case: None, primary: Pod::Neither }
    }

    /// How many of the three parts the packet reports.
    pub open spec fn reported(self) -> nat {
        let l: nat = if self.left is Some { 1 } else { 0 };
        let r: nat = if self.right is Some { 1 } else { 0 };
        let c: nat = if self.case is Some { 1 } else { 0 };
        l + r + c
    }

    /// What the packet reports of `part`.
    pub open spec fn part(self, part: Component) -> Option<ComponentStatus> {
        match part {
            Component::Left => self.left,
            Component::Right => self.right,
            Component::Case => self.case,
        }
    }

    /// Reads a battery frame.
    ///
    /// Returns a packet exactly when `raw` has the shape of a battery frame. Each
    /// part then holds what the last entry that speaks of it reports, and
    /// `primary` is the earbud of the first entry that speaks of an earbud.
    pub fn parse(raw: &[u8]) -> (packet: Option<Self>)
        ensures
            packet == parsed(raw@),
    {
        if !starts_with(raw, BATTERY_STATUS.as_slice()) || raw.len() <= 6 {
            return None;
        }
        let components: usize = raw[6] as usize;
        if components > 3 || raw.len() != HEADER_LEN + ENTRY_LEN * components {
            return None;
        }
        let mut out = BatteryPacket { left: None, right: None, case: None, primary: Pod::Neither };
        let mut k: usize = 0;
        while k < components
            invariant
                k <= components <= 3,
                raw@.len() == 7 + 5 * components,
                out.left == last_report(raw@, Component::Left, k as int),
                out.right == last_report(raw@, Component::Right, k as int),
                out.case == last_report(raw@, Component::Case, k as int),
                out.primary == first_pod(raw@, k as int),
            decreases components - k,
        {
            let at: usize = HEADER_LEN + ENTRY_LEN * k;
            k += 1;
            if raw[at + 1] != ENTRY_MARKER || raw[at + 4] != ENTRY_MARKER {
                continue;
            }
            let part = match Component::from(raw[at]) {
                Some(part) => part,
                None => { continue; },
            };
            let status = match BatteryStatus::from(raw[at + 3]) {
                Some(status) => status,
                None => { continue; },
            };
            if out.primary == Pod::Neither {
                out.primary = part.as_pod();
            }
            let reading = Some(ComponentStatus { level: raw[at + 2], status });
            match part {
                Component::Left => { out.left = reading; },
                Component::Right => { out.right = reading; },
                Component::Case => { out.case = reading; },
            }
        }
        Some(out)
    }

    /// The three parts by reference: left, right, case.
    pub fn as_arr(&self) -> (arr: [&Option<ComponentStatus>; 3])
        ensures
            *arr[0] == self.left,
            *arr[1] == self.right,
            *arr[2] == self.case,
    {
        [&self.left, &self.right, &self.case]
    }
}

impl Component {
    /// The part that a byte stands for.
    pub fn from(byte: u8) -> (part: Option<Self>)
        ensures
            part == component_of(byte),
    {
        match byte {
            0x02 => Some(Component::Right),
            0x04 => Some(Component::Left),
            0x08 => Some(Component::Case),
            _ => None,
        }
    }

    /// The earbud that this part is; the case is neither.
    pub fn as_pod(&self) -> (pod: Pod)
        ensures
            pod == pod_of(*self),
    {
        match self {
            Component::Left => Pod::Left,
            Component::Right => Pod::Right,
            Component::Case => Pod::Neither,
        }
    }
}

impl BatteryStatus {
    /// The charging state that a byte stands for.
    pub fn from(byte: u8) -> (status: Option<Self>)
        ensures
            status == status_of(byte),
    {
        match byte {
            0x01 => Some(BatteryStatus::Charging),
            0x02 => Some(BatteryStatus::Discharging),
            0x04 => Some(BatteryStatus::Disconnected),
            _ => None,
        }
    }
}

/// The snapshot's charging state for the frame's.
pub open spec fn status_in_snapshot(status: BatteryStatus) -> status::BatteryStatus {
    match status {
        BatteryStatus::Charging => status::BatteryStatus::Charging,
        BatteryStatus::Discharging => status::BatteryStatus::Discharging,
        BatteryStatus::Disconnected => status::BatteryStatus::Disconnected,
    }
}

/// The snapshot's entry for a reading of the frame.
pub open spec fn reading_in_snapshot(reading: ComponentStatus) -> status::ComponentStatus {
    status::ComponentStatus { level: reading.level, status: status_in_snapshot(reading.status) }
}

impl From<BatteryStatus> for status::BatteryStatus {
    fn from(val: BatteryStatus) -> (r: status::BatteryStatus) {
        match val {
            BatteryStatus::Charging => status::BatteryStatus::Charging,
            BatteryStatus::Discharging => status::BatteryStatus::Discharging,
            BatteryStatus::Disconnected => status::BatteryStatus::Disconnected,
        }
    }
}

impl vstd::std_specs::convert::FromSpecImpl<BatteryStatus> for status::BatteryStatus {
    open spec fn obeys_from_spec() -> bool {
        true
    }

    open spec fn from_spec(val: BatteryStatus) -> status::BatteryStatus {
        status_in_snapshot(val)
    }
}

impl From<ComponentStatus> for status::ComponentStatus {
    fn from(val: ComponentStatus) -> (r: status::ComponentStatus) {
        status::ComponentStatus { level: val.level, status: status::BatteryStatus::from(val.status) }
    }
}

impl vstd::std_specs::convert::FromSpecImpl<ComponentStatus> for status::ComponentStatus {
    open spec fn obeys_from_spec() -> bool {
        true
    }

    open spec fn from_spec(val: ComponentStatus) -> status::ComponentStatus {
        reading_in_snapshot(val)
    }
}

/// A part is reported exactly when some entry that is read speaks of it, and
/// then with what the last such entry says.
pub proof fn lemma_last_report(raw: Seq<u8>, part: Component, n: int)
    requires
        n <= 3,
    ensures
        last_report(raw, part, n) is Some <==> exists|i: int|
            0 <= i < n && #[trigger] reports(raw, i, part),
        last_report(raw, part, n) matches Some(reading) ==> exists|i: int|
            0 <= i < n && #[trigger] reports(raw, i, part) && entry(raw, i).unwrap().1 == reading
                && forall|j: int| i < j < n ==> !#[trigger] reports(raw, j, part),
{
    if n >= 3 && reports(raw, 2, part) {
    } else if n >= 2 && reports(raw, 1, part) {
        assert(forall|j: int| 1 < j < n ==> !#[trigger] reports(raw, j, part));
    } else if n >= 1 && reports(raw, 0, part) {
        assert(forall|j: int| 0 < j < n ==> !#[trigger] reports(raw, j, part));
    } else {
        assert(forall|i: int| 0 <= i < n ==> !#[trigger] reports(raw, i, part));
    }
}

/// The primary earbud is that of the first entry that is read and speaks of an
/// earbud; there is none exactly when no entry does.
pub proof fn lemma_first_pod(raw: Seq<u8>, n: int)
    requires
        n <= 3,
    ensures
        first_pod(raw, n) == Pod::Neither <==> forall|i: int|
            0 <= i < n ==> !#[trigger] names_pod(raw, i),
        first_pod(raw, n) != Pod::Neither ==> exists|i: int|
            0 <= i < n && #[trigger] names_pod(raw, i) && pod_of(entry(raw, i).unwrap().0)
                == first_pod(raw, n) && forall|j: int| 0 <= j < i ==> !#[trigger] names_pod(raw, j),
{
    if n >= 1 && names_pod(raw, 0) {
    } else if n >= 2 && names_pod(raw, 1) {
        assert(forall|j: int| 0 <= j < 1 ==> !#[trigger] names_pod(raw, j));
    } else if n >= 3 && names_pod(raw, 2) {
        assert(forall|j: int| 0 <= j < 2 ==> !#[trigger] names_pod(raw, j));
    } else {
        assert(forall|i: int| 0 <= i < n ==> !#[trigger] names_pod(raw, i));
    }
}

/// A frame of `n` entries that are all read, no two of them for the same part,
/// reports exactly `n` parts.
pub proof fn lemma_reports_each_entry(raw: Seq<u8>)
    requires
        is_battery_frame(raw),
        forall|i: int| 0 <= i < raw[6] ==> (#[trigger] entry(raw, i)) is Some,
        forall|i: int, j: int|
            0 <= i < j < raw[6] ==> (#[trigger] entry(raw, i)).unwrap().0 != (#[trigger] entry(
                raw,
                j,
            )).unwrap().0,
    ensures
        parsed(raw) is Some,
        parsed(raw).unwrap().reported() == raw[6],
{
    let n = raw[6] as int;
    lemma_last_report(raw, Component::Left, n);
    lemma_last_report(raw, Component::Right, n);
    lemma_last_report(raw, Component::Case, n);
    if n >= 1 {
        assert(entry(raw, 0) is Some);
        assert(reports(raw, 0, entry(raw, 0).unwrap().0));
    }
    if n >= 2 {
        assert(entry(raw, 1) is Some);
        assert(reports(raw, 1, entry(raw, 1).unwrap().0));
    }
    if n >= 3 {
        assert(entry(raw, 2) is Some);
        assert(reports(raw, 2, entry(raw, 2).unwrap().0));
    }
}

/// A frame never reports more parts than it has entries.
pub proof fn lemma_reports_at_most_each_entry(raw: Seq<u8>)
    requires
        is_battery_frame(raw),
    ensures
        parsed(raw).unwrap().reported() <= raw[6],
{
    let n = raw[6] as int;
    lemma_last_report(raw, Component::Left, n);
    lemma_last_report(raw, Component::Right, n);
    lemma_last_report(raw, Component::Case, n);
}

/// Anything that is no battery frame is not read: a wrong marker, a count above
/// three, or a length other than seven plus five for each entry.
pub proof fn lemma_rejects_other_shapes(raw: Seq<u8>)
    ensures
        !BATTERY_STATUS@.is_prefix_of(raw) ==> parsed(raw) is None,
        raw.len() != 7 && raw.len() != 12 && raw.len() != 17 && raw.len() != 22 ==> parsed(raw)
            is None,
        parsed(raw) is Some ==> raw.len() == 7 + 5 * raw[6] && raw[6] <= 3,
{
}

} // verus!
