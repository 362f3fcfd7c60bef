//! The session with the buds: what their runtime messages mean, and the rules of
//! setting the session up.
//!
//! The caller speaks the remote-call protocol and hands over each runtime
//! message as plain values. It also runs the three halves of a session side by
//! side and reports which of them ended first.

use vstd::prelude::*;
use crate::status::{
    BatteryStatus, ComponentStatus, Components, EarStatus, InEar, Status, StatusView,
};

verus! {

/// Most times that connecting the profile is tried again after it failed.
pub const MAX_TRIES: u32 = 3;

/// Milliseconds to wait before connecting the profile is tried again.
pub const RETRY_MILLIS: u64 = 1000;

/// The number by which a runtime message says that a battery is being charged.
pub const STATE_CHARGING: i32 = 2;

/// Battery of one part as a runtime message gives it.
#[derive(Debug, Clone, Copy, PartialEq, Eq, Structural)]
pub struct DeviceBattery {
    pub level: i32,
    pub state: i32,
}

/// Batteries of the parts that a runtime message speaks of.
#[derive(Debug, Clone, Copy)]
pub struct BatteryInfo {
    pub case: Option<DeviceBattery>,
    pub left: Option<DeviceBattery>,
    pub right: Option<DeviceBattery>,
}

/// Whether each bud lies in the case.
#[derive(Debug, Clone, Copy, PartialEq, Eq, Structural)]
pub struct Placement {
    pub left_bud_in_case: bool,
    pub right_bud_in_case: bool,
}

/// A runtime message of the buds, as far as the daemon reads it.
#[derive(Debug, Clone, Copy)]
pub struct RuntimeInfo {
    pub battery_info: Option<BatteryInfo>,
    pub placement: Option<Placement>,
}

/// The level of a message as a percentage: the number itself where it fits in a
/// byte, zero where it does not.
pub open spec fn level_of(level: i32) -> u8 {
    if 0 <= level <= 255 {
        level as u8
    } else {
        0
    }
}

/// The snapshot's entry for a part's battery: charging where the message says
/// so, discharging for every other state.
pub open spec fn component_of(battery: Option<DeviceBattery>) -> Option<ComponentStatus> {
    match battery {
        Some(b) => Some(
            ComponentStatus {
                level: level_of(b.level),
                status: if b.state == STATE_CHARGING {
                    BatteryStatus::Charging
                } else {
                    BatteryStatus::Discharging
                },
            },
        ),
        None => None,
    }
}

/// The position of a bud: known only if the message has the bud's battery and
/// the placement; then in the case or in the ear.
pub open spec fn position_of(
    battery: Option<DeviceBattery>,
    in_case: Option<bool>,
) -> EarStatus {
    match (battery, in_case) {
        (Some(_), Some(flag)) => if flag {
            EarStatus::InCase
        } else {
            EarStatus::InEar
        },
        _ => EarStatus::Disconnected,
    }
}

impl RuntimeInfo {
    /// The battery of the case, if the message has it.
    pub open spec fn case(self) -> Option<DeviceBattery> {
        match self.battery_info {
            Some(info) => info.case,
            None => None,
        }
    }

    /// The battery of the left bud, if the message has it.
    pub open spec fn left(self) -> Option<DeviceBattery> {
        match self.battery_info {
            Some(info) => info.left,
            None => None,
        }
    }

    /// The battery of the right bud, if the message has it.
    pub open spec fn right(self) -> Option<DeviceBattery> {
        match self.battery_info {
            Some(info) => info.right,
            None => None,
        }
    }

    /// The charge of the parts that the message speaks of.
    pub open spec fn components(self) -> Components {
        Components {
            left: component_of(self.left()),
            right: component_of(self.right()),
            case: component_of(self.case()),
        }
    }

    /// The positions of the buds that the message speaks of.
    pub open spec fn ear(self) -> InEar {
        InEar {
            left: position_of(
                self.left(),
                match self.placement {
                    Some(p) => Some(p.left_bud_in_case),
                    None => None,
                },
            ),
            right: position_of(
                self.right(),
                match self.placement {
                    Some(p) => Some(p.right_bud_in_case),
                    None => None,
                },
            ),
        }
    }

    /// The snapshot that the message alone gives: charge and positions from the
    /// message, no metadata, no peripherals.
    pub open spec fn status(self) -> StatusView {
        StatusView {
            metadata: None,
            components: self.components(),
            ear: self.ear(),
            devices: Seq::empty(),
        }
    }
}

fn to_level(level: i32) -> (out: u8)
    ensures
        out == level_of(level),
{
    if 0 <= level && level <= 255 {
        level as u8
    } else {
        0
    }
}

fn to_component(battery: &DeviceBattery) -> (out: ComponentStatus)
    ensures
        Some(out) == component_of(Some(*battery)),
{
    ComponentStatus {
        level: to_level(battery.level),
        status: if battery.state == STATE_CHARGING {
            BatteryStatus::Charging
        } else {
            BatteryStatus::Discharging
        },
    }
}

/// Reads a runtime message of the buds into a snapshot of what it speaks of.
pub fn runtime_info_to_status(info: RuntimeInfo) -> (status: Status)
    ensures
        status@ == info.status(),
{
    let mut components = Components { left: None, right: None, case: None };
    let mut ear = InEar { left: EarStatus::Disconnected, right: EarStatus::Disconnected };
    if let Some(batteries) = info.battery_info {
        if let Some(case) = batteries.case {
            components.case = Some(to_component(&case));
        }
        if let Some(left) = batteries.left {
            components.left = Some(to_component(&left));
            if let Some(placement) = info.placement {
                ear.left = if placement.left_bud_in_case {
                    EarStatus::InCase
                } else {
                    EarStatus::InEar
                };
            }
        }
        if let Some(right) = batteries.right {
            components.right = Some(to_component(&right));
            if let Some(placement) = info.placement {
                ear.right = if placement.right_bud_in_case {
                    EarStatus::InCase
                } else {
                    EarStatus::InEar
                };
            }
        }
    }
    let status = Status { metadata: None, components, ear, devices: Vec::new() };
    assert(status@.devices =~= Seq::empty());
    status
}

/// What to do after connecting the profile has failed.
#[derive(Debug, Clone, Copy, PartialEq, Eq, Structural)]
pub enum Retry {
    /// Wait this many milliseconds, then try again.
    After(u64),
    /// Give up and report the failure.
    GiveUp,
}

/// Decides what follows a failure to connect the profile, given how many times
/// it has been tried again already: another try after a second, up to three
/// times.
pub fn after_connect_failure(retries: u32) -> (next: Retry)
    ensures
        next == (if retries >= MAX_TRIES {
            Retry::GiveUp
        } else {
            Retry::After(RETRY_MILLIS)
        }),
{
    if retries >= MAX_TRIES {
        Retry::GiveUp
    } else {
        Retry::After(RETRY_MILLIS)
    }
}

/// Whether a request for a stream is accepted: only one from the buds
/// themselves is; any other is rejected.
pub fn accepts_request(from: &[u8; 6], target: &[u8; 6]) -> (accept: bool)
    ensures
        accept == (from@ == target@),
{
    let mut i: usize = 0;
    while i < 6
        invariant
            i <= 6,
            forall|j: int| 0 <= j < i ==> from@[j] == target@[j],
        decreases 6 - i,
    {
        if from[i] != target[i] {
            return false;
        }
        i += 1;
    }
    assert(from@ =~= target@);
    true
}

/// The half of a session that ended first.
#[derive(Debug, Clone, Copy, PartialEq, Eq, Structural)]
pub enum Finished {
    /// The client's run loop returned; `failed` says whether with an error.
    Client { failed: bool },
    /// The subscription to runtime messages ended; `failed` says whether with
    /// an error.
    Subscription { failed: bool },
    /// The loop that reads the messages found no more.
    Consumer,
}

/// How a session ended.
#[derive(Debug, Clone, Copy, PartialEq, Eq, Structural)]
pub enum Outcome {
    /// The stream of messages ended without an error.
    Ended,
    /// The half that ended first reported an error, which is passed on.
    Failed,
    /// The client's run loop returned without an error, which it is not meant to.
    ClientTerminated,
}

/// How a session ended, given which of its halves ended first. The other halves
/// are dropped with the session.
pub fn session_outcome(first: Finished) -> (outcome: Outcome)
    ensures
        outcome == (match first {
            Finished::Client { failed } => if failed {
                Outcome::Failed
            } else {
                Outcome::ClientTerminated
            },
            Finished::Subscription { failed } => if failed {
                Outcome::Failed
            } else {
                Outcome::Ended
            },
            Finished::Consumer => Outcome::Ended,
        }),
{
    match first {
        Finished::Client { failed } => if failed {
            Outcome::Failed
        } else {
            Outcome::ClientTerminated
        },
        Finished::Subscription { failed } => if failed {
            Outcome::Failed
        } else {
            Outcome::Ended
        },
        Finished::Consumer => Outcome::Ended,
    }
}

/// A message never marks a part as disconnected, and never places a bud whose
/// battery it does not report.
pub proof fn lemma_message_shape(info: RuntimeInfo)
    ensures
        info.components().left matches Some(c) ==> c.status != BatteryStatus::Disconnected,
        info.components().right matches Some(c) ==> c.status != BatteryStatus::Disconnected,
        info.components().case matches Some(c) ==> c.status != BatteryStatus::Disconnected,
        info.components().left is None ==> info.ear().left == EarStatus::Disconnected,
        info.components().right is None ==> info.ear().right == EarStatus::Disconnected,
{
}

} // verus!
