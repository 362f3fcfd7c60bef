//! The source that streams from the buds: its supervising loop.
//!
//! Every five seconds the caller finds out whether the buds are connected and
//! asks [`supervise`] what to do. While a session runs, each runtime message is
//! merged into the shared snapshot and the result announced.

use vstd::prelude::*;
use crate::bluetooth::{parse_address, parsed_address};
use crate::config::{Config, ConfigView};

verus! {

/// Seconds between two rounds of the supervising loop.
pub const SUPERVISE_INTERVAL_SECS: u64 = 5;

/// Seconds that a lookup of the adapter or of the connection may take.
pub const LOOKUP_TIMEOUT_SECS: u64 = 2;

/// What the caller found out at the start of a round.
#[derive(Debug, Clone, Copy, PartialEq, Eq, Structural)]
pub struct Round {
    /// Whether buds are configured, with an address that can be read.
    pub configured: bool,
    /// Whether the caller holds a session with the Bluetooth stack.
    pub has_session: bool,
    /// Whether the buds are connected; a lookup that failed or timed out
    /// counts as not connected.
    pub connected: bool,
}

/// What the caller is to do in a round.
#[derive(Debug, Clone, Copy, PartialEq, Eq, Structural)]
pub enum Supervision {
    /// Nothing: no buds are configured.
    Idle,
    /// Set up a session with the buds and stream until it ends.
    Stream,
    /// Clear what the buds streamed from the shared snapshot, unless an earbud
    /// session has claimed it, and announce the result. With `open_session`,
    /// first try to get a session with the Bluetooth stack for the next round.
    Clear { open_session: bool },
}

/// What a round calls for. Without configured buds the source does nothing.
/// With them it streams while they are connected, and clears what they
/// streamed while they are not, or while there is no session with the stack.
pub open spec fn supervision(round: Round) -> Supervision {
    if !round.configured {
        Supervision::Idle
    } else if !round.has_session {
        Supervision::Clear { open_session: true }
    } else if round.connected {
        Supervision::Stream
    } else {
        Supervision::Clear { open_session: false }
    }
}

/// Decides what the caller is to do in a round.
pub fn supervise(round: Round) -> (action: Supervision)
    ensures
        action == supervision(round),
{
    if !round.configured {
        Supervision::Idle
    } else if !round.has_session {
        Supervision::Clear { open_session: true }
    } else if round.connected {
        Supervision::Stream
    } else {
        Supervision::Clear { open_session: false }
    }
}

/// The address of the configured buds as read, or nothing if none are
/// configured or their address cannot be read.
pub open spec fn target_of(config: ConfigView) -> Option<Seq<u8>> {
    match config.buds {
        Some(mac) => parsed_address(mac),
        None => None,
    }
}

/// The address of the buds to stream from, or nothing if none are configured or
/// their address cannot be read.
pub fn buds_target(config: &Config) -> (target: Option<[u8; 6]>)
    ensures
        match target {
            Some(bytes) => target_of(config@) == Some(bytes@),
            None => target_of(config@) is None,
        },
{
    match &config.buds {
        Some(buds) => parse_address(buds.mac.as_str()),
        None => None,
    }
}

/// The source streams only in a round in which the buds are configured, a
/// session with the stack is held, and the buds are connected.
pub proof fn lemma_streams_only_when_connected(round: Round)
    ensures
        supervision(round) == Supervision::Stream <==> round.configured && round.has_session
            && round.connected,
        supervision(round) is Clear <==> round.configured && !(round.has_session
            && round.connected),
{
}

} // verus!
