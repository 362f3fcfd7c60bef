//! Fixed byte sequences of the earbud protocol.

use vstd::prelude::*;

verus! {

/// Service identifier that an earbud device advertises, as a 128-bit number.
pub const AIRPODS_SERVICE: u128 = 0x74ec2172_0bad_4d01_8f77_997b2be0722a;

/// First message of a session, sent by the host.
pub const HANDSHAKE: [u8; 16] = [
    0x00, 0x00, 0x04, 0x00, 0x01, 0x00, 0x02, 0x00,
    0x00, 0x00, 0x00, 0x00, 0x00, 0x00, 0x00, 0x00,
];

/// Opening bytes of the device's answer to the handshake.
pub const HANDSHAKE_ACK: [u8; 4] = [0x01, 0x00, 0x04, 0x00];

/// Command that switches the device's optional features on.
pub const SET_SPECIFIC_FEATURES: [u8; 14] = [
    0x04, 0x00, 0x04, 0x00, 0x4d, 0x00, 0xff, 0x00,
    0x00, 0x00, 0x00, 0x00, 0x00, 0x00,
];

/// Opening bytes of the device's answer to the feature command.
pub const FEATURES_ACK: [u8; 6] = [0x04, 0x00, 0x04, 0x00, 0x2b, 0x00];

/// Command that asks the device to stream its status frames.
pub const REQUEST_NOTIFICATIONS: [u8; 10] = [
    0x04, 0x00, 0x04, 0x00, 0x0f, 0x00, 0xff, 0xff, 0xff, 0xff,
];

/// Marker that opens a battery frame.
pub const BATTERY_STATUS: [u8; 6] = [0x04, 0x00, 0x04, 0x00, 0x04, 0x00];

/// Marker that opens an in-ear frame.
pub const EAR_DETECTION: [u8; 6] = [0x04, 0x00, 0x04, 0x00, 0x06, 0x00];

/// Marker that opens a metadata frame.
pub const METADATA: [u8; 11] = [
    0x04, 0x00, 0x04, 0x00, 0x1d, 0x00, 0x02, 0xed, 0x00, 0x04, 0x00,
];

/// Whether `data` begins with the bytes of `prefix`.
pub fn starts_with(data: &[u8], prefix: &[u8]) -> (b: bool)
    ensures
        b == prefix@.is_prefix_of(data@),
{
    if prefix.len() > data.len() {
        return false;
    }
    let mut i: usize = 0;
    while i < prefix.len()
        invariant
            i <= prefix.len() <= data.len(),
            forall|j: int| 0 <= j < i ==> prefix@[j] == data@[j],
        decreases prefix.len() - i,
    {
        if prefix[i] != data[i] {
            return false;
        }
        i += 1;
    }
    assert(prefix@ =~= data@.subrange(0, prefix@.len() as int));
    true
}

/// A sequence that begins with `prefix` agrees with it at every position of the prefix.
pub proof fn lemma_prefix_index(prefix: Seq<u8>, data: Seq<u8>, i: int)
    requires
        prefix.is_prefix_of(data),
        0 <= i < prefix.len(),
    ensures
        prefix.len() <= data.len(),
        data[i] == prefix[i],
{
    assert(data.subrange(0, prefix.len() as int)[i] == data[i]);
}

/// The three frame markers differ at their fifth byte, so no frame opens with two of them.
pub proof fn lemma_markers_exclusive(data: Seq<u8>)
    ensures
        !(METADATA@.is_prefix_of(data) && BATTERY_STATUS@.is_prefix_of(data)),
        !(METADATA@.is_prefix_of(data) && EAR_DETECTION@.is_prefix_of(data)),
        !(BATTERY_STATUS@.is_prefix_of(data) && EAR_DETECTION@.is_prefix_of(data)),
{
    if METADATA@.is_prefix_of(data) {
        lemma_prefix_index(METADATA@, data, 4);
    }
    if BATTERY_STATUS@.is_prefix_of(data) {
        lemma_prefix_index(BATTERY_STATUS@, data, 4);
    }
    if EAR_DETECTION@.is_prefix_of(data) {
        lemma_prefix_index(EAR_DETECTION@, data, 4);
    }
}

} // verus!
