//! The metadata frame: the device's name, its model number and its maker.
//!
//! A frame is the eleven marker bytes followed by three fields, each closed by a
//! zero byte. A field that the frame ends in needs no closing byte, and a field
//! that the frame has no bytes left for is empty. The bytes of a field are read
//! as UTF-8, with a replacement character for what is none.

use vstd::prelude::*;
use vstd::slice::slice_subrange;
use crate::airpods_consts::{starts_with, METADATA};
use crate::status;

verus! {

/// Length of the marker that opens a metadata frame.
pub const HEADER_LEN: usize = 11;

/// What a metadata frame reports.
#[derive(Debug)]
pub struct MetadataPacket {
    pub device_name: String,
    pub model_number: String,
    pub manufacturer: String,
}

/// What a [`MetadataPacket`] says, as text.
pub struct MetadataPacketView {
    pub device_name: Seq<char>,
    pub model_number: Seq<char>,
    pub manufacturer: Seq<char>,
}

impl View for MetadataPacket {
    type V = MetadataPacketView;

    open spec fn view(&self) -> MetadataPacketView {
        MetadataPacketView {
            device_name: self.device_name@,
            model_number: self.model_number@,
            manufacturer: self.manufacturer@,
        }
    }
}

impl Default for MetadataPacket {
    fn default() -> (r: Self)
        ensures
            r.device_name@.len() == 0,
            r.model_number@.len() == 0,
            r.manufacturer@.len() == 0,
    {
        MetadataPacket {
            device_name: String::new(),
            model_number: String::new(),
            manufacturer: String::new(),
        }
    }
}

/// Where the three fields of a frame lie: for each the position of its first
/// byte and the position after its last.
#[derive(Debug, Clone, Copy)]
pub struct FieldSpans {
    pub device_name: (usize, usize),
    pub model_number: (usize, usize),
    pub manufacturer: (usize, usize),
}

/// The text that a lossy UTF-8 decoder makes of `bytes`.
pub uninterp spec fn utf8_lossy(bytes: Seq<u8>) -> Seq<char>;

/// `String::from_utf8_lossy` of the standard library: the text of `bytes` read
/// as UTF-8, each invalid sequence replaced. The result depends on the bytes
/// alone; the contract gives it a name and says no more of it.
#[verifier::external_body]
fn decode_lossy(bytes: &[u8]) -> (text: String)
    ensures
        text@ == utf8_lossy(bytes@),
{
    String::from_utf8_lossy(bytes).into_owned()
}

/// Whether `data` has the shape of a metadata frame: it opens with the marker.
pub open spec fn is_metadata_frame(data: Seq<u8>) -> bool {
    data.len() >= 11 && METADATA@.is_prefix_of(data)
}

/// Where the field that begins at `start` ends: at the first zero byte from
/// `start` on, or at the end of `data` if there is none.
pub open spec fn field_end(data: Seq<u8>, start: int) -> int
    decreases data.len() - start,
{
    if start >= data.len() {
        data.len() as int
    } else if data[start] == 0 {
        start
    } else {
        field_end(data, start + 1)
    }
}

/// Where the field after one that ends at `end` begins: behind the zero byte
/// that closes it, or at the end of `data` if nothing closes it.
pub open spec fn next_start(data: Seq<u8>, end: int) -> int {
    if end < data.len() {
        end + 1
    } else {
        data.len() as int
    }
}

/// Where field `k` of a frame begins, for the three fields 0, 1 and 2: the first
/// behind the marker, each other one behind the field before it.
pub open spec fn field_start(data: Seq<u8>, k: nat) -> int {
    if k == 0 {
        11
    } else if k == 1 {
        next_start(data, field_end(data, 11))
    } else {
        next_start(data, field_end(data, next_start(data, field_end(data, 11))))
    }
}

/// The bytes of field `k` of a frame, without the closing zero byte.
pub open spec fn field(data: Seq<u8>, k: nat) -> Seq<u8> {
    data.subrange(field_start(data, k), field_end(data, field_start(data, k)))
}

/// Where the three fields of a frame lie; nothing if `data` is no metadata frame.
pub open spec fn spans(data: Seq<u8>) -> Option<FieldSpans> {
    if is_metadata_frame(data) {
        Some(
            FieldSpans {
                device_name: (
                    field_start(data, 0) as usize,
                    field_end(data, field_start(data, 0)) as usize,
                ),
                model_number: (
                    field_start(data, 1) as usize,
                    field_end(data, field_start(data, 1)) as usize,
                ),
                manufacturer: (
                    field_start(data, 2) as usize,
                    field_end(data, field_start(data, 2)) as usize,
                ),
            },
        )
    } else {
        None
    }
}

/// What a frame reports; nothing if `data` is no metadata frame.
pub open spec fn parsed(data: Seq<u8>) -> Option<MetadataPacketView> {
    if is_metadata_frame(data) {
        Some(
            MetadataPacketView {
                device_name: utf8_lossy(field(data, 0)),
                model_number: utf8_lossy(field(data, 1)),
                manufacturer: utf8_lossy(field(data, 2)),
            },
        )
    } else {
        None
    }
}

/// A field holds no zero byte, lies within the frame, and is followed by a zero
/// byte unless it runs to the end of the frame.
pub proof fn lemma_field_end(data: Seq<u8>, start: int)
    requires
        0 <= start <= data.len(),
    ensures
        start <= field_end(data, start) <= data.len(),
        forall|j: int| start <= j < field_end(data, start) ==> data[j] != 0,
        field_end(data, start) < data.len() ==> data[field_end(data, start)] == 0,
    decreases data.len() - start,
{
    if start < data.len() && data[start] != 0 {
        lemma_field_end(data, start + 1);
    }
}

/// Each field of a frame begins within the frame, behind the marker.
pub proof fn lemma_field_start(data: Seq<u8>, k: nat)
    requires
        data.len() >= 11,
    ensures
        11 <= field_start(data, k) <= data.len(),
{
    lemma_field_end(data, 11);
    lemma_field_end(data, next_start(data, field_end(data, 11)));
}

/// The position where the field that begins at `start` ends.
fn scan_field(data: &[u8], start: usize) -> (end: usize)
    requires
        start <= data.len(),
    ensures
        end == field_end(data@, start as int),
        start <= end <= data.len(),
{
    let mut idx: usize = start;
    while idx < data.len() && data[idx] != 0x00
        invariant
            start <= idx <= data.len(),
            field_end(data@, start as int) == field_end(data@, idx as int),
        decreases data.len() - idx,
    {
        idx += 1;
    }
    idx
}

/// The position where the field after one that ended at `end` begins.
fn next_field(data: &[u8], end: usize) -> (start: usize)
    requires
        end <= data.len(),
    ensures
        start == next_start(data@, end as int),
{
    if end < data.len() {
        end + 1
    } else {
        data.len()
    }
}

impl MetadataPacket {
    /// Finds the three fields of a metadata frame.
    ///
    /// Returns their positions exactly when `data` opens with the marker.
    pub fn split_fields(data: &[u8]) -> (found: Option<FieldSpans>)
        ensures
            found == spans(data@),
    {
        if data.len() < HEADER_LEN || !starts_with(data, METADATA.as_slice()) {
            return None;
        }
        let s0: usize = HEADER_LEN;
        let e0: usize = scan_field(data, s0);
        let s1: usize = next_field(data, e0);
        let e1: usize = scan_field(data, s1);
        let s2: usize = next_field(data, e1);
        let e2: usize = scan_field(data, s2);
        Some(FieldSpans { device_name: (s0, e0), model_number: (s1, e1), manufacturer: (s2, e2) })
    }

    /// Reads a metadata frame.
    ///
    /// Returns a packet exactly when `data` opens with the marker. Its three
    /// texts are then the lossy UTF-8 readings of the frame's three fields.
    pub fn parse(data: &[u8]) -> (packet: Option<Self>)
        ensures
            packet is Some <==> is_metadata_frame(data@),
            packet matches Some(p) ==> parsed(data@) == Some(p@),
    {
        match MetadataPacket::split_fields(data) {
            Some(found) => Some(MetadataPacket::decode(data, found)),
            None => None,
        }
    }

    /// Reads the three texts of a frame whose fields have been found.
    fn decode(data: &[u8], found: FieldSpans) -> (packet: Self)
        requires
            spans(data@) == Some(found),
        ensures
            parsed(data@) == Some(packet@),
    {
        let len: usize = data.len();
        proof {
            assert(data@.len() == len);
            lemma_field_start(data@, 0);
            lemma_field_start(data@, 1);
            lemma_field_start(data@, 2);
            lemma_field_end(data@, field_start(data@, 0));
            lemma_field_end(data@, field_start(data@, 1));
            lemma_field_end(data@, field_start(data@, 2));
        }
        MetadataPacket {
            device_name: decode_lossy(
                slice_subrange(data, found.device_name.0, found.device_name.1),
            ),
            model_number: decode_lossy(
                slice_subrange(data, found.model_number.0, found.model_number.1),
            ),
            manufacturer: decode_lossy(
                slice_subrange(data, found.manufacturer.0, found.manufacturer.1),
            ),
        }
    }
}

/// The snapshot's metadata for a packet's: the name and the model number.
pub open spec fn metadata_in_snapshot(packet: MetadataPacketView) -> status::MetadataView {
    status::MetadataView { name: packet.device_name, model: packet.model_number }
}

impl From<MetadataPacket> for status::Metadata {
    fn from(val: MetadataPacket) -> (r: status::Metadata) {
        status::Metadata { name: val.device_name, model: val.model_number }
    }
}

impl vstd::std_specs::convert::FromSpecImpl<MetadataPacket> for status::Metadata {
    open spec fn obeys_from_spec() -> bool {
        true
    }

    open spec fn from_spec(val: MetadataPacket) -> status::Metadata {
        status::Metadata { name: val.device_name, model: val.model_number }
    }
}

} // verus!
