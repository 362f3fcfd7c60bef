//! The in-ear frame: where the primary and the secondary earbud are.
//!
//! A frame is exactly eight bytes: the six marker bytes, then one byte for each
//! of the two earbuds. Which of them is the left one follows from the primary
//! earbud that battery frames have established.

use vstd::prelude::*;
use crate::airpods_consts::{starts_with, EAR_DETECTION};
use crate::packets::battery::Pod;
use crate::status;

verus! {

/// Length of an in-ear frame.
pub const FRAME_LEN: usize = 8;

/// What an in-ear frame reports.
#[derive(Debug, Clone, Copy, PartialEq, Eq, Structural)]
pub struct InEarPacket {
    pub primary: EarStatus,
    pub secondary: EarStatus,
}

impl Default for InEarPacket {
    fn default() -> (r: Self)
        ensures
            r == (InEarPacket { primary: EarStatus::Disconnected, secondary: EarStatus::Disconnected }),
    {
        InEarPacket { primary: EarStatus::Disconnected, secondary: EarStatus::Disconnected }
    }
}

/// Where an earbud is, as the frame encodes it.
#[derive(Debug, Clone, Copy, PartialEq, Eq, Structural)]
pub enum EarStatus {
    InEar,
    NotInEar,
    InCase,
    Disconnected,
}

impl Default for EarStatus {
    fn default() -> (r: Self)
        ensures
            r == EarStatus::Disconnected,
    {
        EarStatus::Disconnected
    }
}

/// The position that a byte stands for: `0x00` in the ear, `0x01` out of it,
/// `0x02` in the case; any other byte means the earbud is out of reach.
pub open spec fn ear_status_of(byte: u8) -> EarStatus {
    if byte == 0x00 {
        EarStatus::InEar
    } else if byte == 0x01 {
        EarStatus::NotInEar
    } else if byte == 0x02 {
        EarStatus::InCase
    } else {
        EarStatus::Disconnected
    }
}

/// Whether `bytes` has the shape of an in-ear frame: eight bytes that open with
/// the marker.
pub open spec fn is_in_ear_frame(bytes: Seq<u8>) -> bool {
    bytes.len() == 8 && EAR_DETECTION@.is_prefix_of(bytes)
}

/// What a frame reports; nothing if `bytes` is no in-ear frame.
pub open spec fn parsed(bytes: Seq<u8>) -> Option<InEarPacket> {
    if is_in_ear_frame(bytes) {
        Some(InEarPacket { primary: ear_status_of(bytes[6]), secondary: ear_status_of(bytes[7]) })
    } else {
        None
    }
}

/// The positions of the left and of the right earbud, given which of them is the
/// primary one; nothing while no primary earbud is known.
pub open spec fn attributed(packet: InEarPacket, primary: Pod) -> Option<(EarStatus, EarStatus)> {
    match primary {
        Pod::Left => Some((packet.primary, packet.secondary)),
        Pod::Right => Some((packet.secondary, packet.primary)),
        Pod::Neither => None,
    }
}

impl InEarPacket {
    /// Reads an in-ear frame.
    ///
    /// Returns a packet exactly when `bytes` is eight bytes long and opens with
    /// the marker; the seventh byte is then the primary earbud's position and the
    /// eighth the secondary's.
    pub fn parse(bytes: &[u8]) -> (packet: Option<Self>)
        ensures
            packet == parsed(bytes@),
    {
        if bytes.len() != FRAME_LEN || !starts_with(bytes, EAR_DETECTION.as_slice()) {
            return None;
        }
        Some(InEarPacket { primary: EarStatus::from(bytes[6]), secondary: EarStatus::from(bytes[7]) })
    }

    /// The positions of the left and of the right earbud, in that order, given
    /// the primary earbud; nothing while no primary earbud is known.
    pub fn get(&self, primary: Pod) -> (sides: Option<[EarStatus; 2]>)
        ensures
            match sides {
                Some(pair) => attributed(*self, primary) == Some((pair[0], pair[1])),
                None => attributed(*self, primary) is None,
            },
    {
        match primary {
            Pod::Left => Some([self.primary, self.secondary]),
            Pod::Right => Some([self.secondary, self.primary]),
            Pod::Neither => None,
        }
    }
}

impl EarStatus {
    /// The position that a byte stands for.
    pub fn from(byte: u8) -> (position: Self)
        ensures
            position == ear_status_of(byte),
    {
        match byte {
            0x00 => EarStatus::InEar,
            0x01 => EarStatus::NotInEar,
            0x02 => EarStatus::InCase,
            _ => EarStatus::Disconnected,
        }
    }
}

/// The snapshot's position for the frame's.
pub open spec fn position_in_snapshot(position: EarStatus) -> status::EarStatus {
    match position {
        EarStatus::InEar => status::EarStatus::InEar,
        EarStatus::NotInEar => status::EarStatus::NotInEar,
        EarStatus::InCase => status::EarStatus::InCase,
        EarStatus::Disconnected => status::EarStatus::Disconnected,
    }
}

impl From<EarStatus> for status::EarStatus {
    fn from(val: EarStatus) -> (r: status::EarStatus) {
        match val {
            EarStatus::InEar => status::EarStatus::InEar,
            EarStatus::NotInEar => status::EarStatus::NotInEar,
            EarStatus::InCase => status::EarStatus::InCase,
            EarStatus::Disconnected => status::EarStatus::Disconnected,
        }
    }
}

impl vstd::std_specs::convert::FromSpecImpl<EarStatus> for status::EarStatus {
    open spec fn obeys_from_spec() -> bool {
        true
    }

    open spec fn from_spec(val: EarStatus) -> status::EarStatus {
        position_in_snapshot(val)
    }
}

/// Only a frame of eight bytes that opens with the marker is read.
pub proof fn lemma_recognized_iff(bytes: Seq<u8>)
    ensures
        parsed(bytes) is Some <==> bytes.len() == 8 && EAR_DETECTION@.is_prefix_of(bytes),
        bytes.len() != 8 ==> parsed(bytes) is None,
        !EAR_DETECTION@.is_prefix_of(bytes) ==> parsed(bytes) is None,
{
}

} // verus!
