//! The earbud source: one session with the earbuds at a time.
//!
//! The caller owns the connection. It hands each chunk that it reads to a
//! [`FrameBuffer`], each frame that comes out of it to a [`Session`], and does
//! what the session answers: send a command, merge an update into the shared
//! snapshot and announce it, or nothing. When the connection ends it tells the
//! session so and clears the earbuds from the shared snapshot.

use vstd::prelude::*;
use crate::airpods_consts::{
    lemma_markers_exclusive, starts_with, AIRPODS_SERVICE, FEATURES_ACK, HANDSHAKE,
    HANDSHAKE_ACK, REQUEST_NOTIFICATIONS, SET_SPECIFIC_FEATURES,
};
use crate::packets::battery;
use crate::packets::battery::{reading_in_snapshot, BatteryPacket, Pod};
use crate::packets::in_ear;
use crate::packets::in_ear::{attributed, position_in_snapshot, InEarPacket};
use crate::packets::metadata;
use crate::packets::metadata::{metadata_in_snapshot, MetadataPacket, MetadataPacketView};
use crate::status;
use crate::status::{InEar, Status, StatusView};
use crate::store::{EarbudUpdate, EarbudUpdateView};

verus! {

/// Seconds between two scans for the earbuds while they have not been found.
pub const SCAN_INTERVAL_SECS: u64 = 5;

/// Milliseconds to wait before connecting again when the stack reports that a
/// connection is already being made.
pub const BUSY_BACKOFF_MILLIS: u64 = 500;

/// Milliseconds to wait before connecting again after any other failure.
pub const FAILURE_BACKOFF_MILLIS: u64 = 100;

/// Most bytes that one read hands over. A read that brings fewer ends a frame.
pub const CHUNK_LEN: usize = 1024;

/// What a session remembers between frames: which earbud is the primary one, and
/// its own copy of the earbud fields of the snapshot.
#[derive(Debug)]
pub struct LocalState {
    pub primary: Pod,
    pub status: Status,
}

/// What a [`LocalState`] says.
pub struct LocalStateView {
    pub primary: Pod,
    pub status: StatusView,
}

impl View for LocalState {
    type V = LocalStateView;

    open spec fn view(&self) -> LocalStateView {
        LocalStateView { primary: self.primary, status: self.status@ }
    }
}

impl Default for LocalState {
    fn default() -> (state: Self)
        ensures
            state@ == LocalStateView::fresh(),
    {
        LocalState { primary: Pod::Neither, status: Status::default() }
    }
}

/// A frame, read as the one kind whose marker it opens with.
#[derive(Debug)]
pub enum Frame {
    Metadata(MetadataPacket),
    Battery(BatteryPacket),
    InEar(InEarPacket),
    Unrecognized,
}

/// What a [`Frame`] says.
pub enum FrameView {
    Metadata(MetadataPacketView),
    Battery(BatteryPacket),
    InEar(InEarPacket),
    Unrecognized,
}

impl View for Frame {
    type V = FrameView;

    open spec fn view(&self) -> FrameView {
        match *self {
            Frame::Metadata(packet) => FrameView::Metadata(packet@),
            Frame::Battery(packet) => FrameView::Battery(packet),
            Frame::InEar(packet) => FrameView::InEar(packet),
            Frame::Unrecognized => FrameView::Unrecognized,
        }
    }
}

/// The reading of a frame: as metadata if it is a metadata frame, else as a
/// battery frame if it is one, else as an in-ear frame if it is one.
pub open spec fn classified(data: Seq<u8>) -> FrameView {
    match metadata::parsed(data) {
        Some(packet) => FrameView::Metadata(packet),
        None => match battery::parsed(data) {
            Some(packet) => FrameView::Battery(packet),
            None => match in_ear::parsed(data) {
                Some(packet) => FrameView::InEar(packet),
                None => FrameView::Unrecognized,
            },
        },
    }
}

/// A part's entry after a battery frame: the new reading if the frame has one
/// for the part, else the entry as it was.
pub open spec fn updated_part(
    known: Option<status::ComponentStatus>,
    reading: Option<battery::ComponentStatus>,
) -> Option<status::ComponentStatus> {
    match reading {
        Some(r) => Some(reading_in_snapshot(r)),
        None => known,
    }
}

impl LocalStateView {
    /// The state at the start of a session: no primary earbud, nothing known.
    pub open spec fn fresh() -> LocalStateView {
        LocalStateView { primary: Pod::Neither, status: StatusView::empty() }
    }

    /// The state after a metadata frame: name and model are those of the frame.
    pub open spec fn after_metadata(self, packet: MetadataPacketView) -> LocalStateView {
        LocalStateView {
            primary: self.primary,
            status: StatusView { metadata: Some(metadata_in_snapshot(packet)), ..self.status },
        }
    }

    /// The state after a battery frame. The primary earbud is set if none was
    /// known, and never changed once it is; each part that the frame reports
    /// takes the new reading.
    pub open spec fn after_battery(self, packet: BatteryPacket) -> LocalStateView {
        LocalStateView {
            primary: if self.primary == Pod::Neither {
                packet.primary
            } else {
                self.primary
            },
            status: StatusView {
                components: status::Components {
                    left: updated_part(self.status.components.left, packet.left),
                    right: updated_part(self.status.components.right, packet.right),
                    case: updated_part(self.status.components.case, packet.case),
                },
                ..self.status
            },
        }
    }

    /// The state after an in-ear frame: the positions of the frame, attributed
    /// by the primary earbud; unchanged while no primary earbud is known.
    pub open spec fn after_in_ear(self, packet: InEarPacket) -> LocalStateView {
        match attributed(packet, self.primary) {
            Some(sides) => LocalStateView {
                primary: self.primary,
                status: StatusView {
                    ear: InEar {
                        left: position_in_snapshot(sides.0),
                        right: position_in_snapshot(sides.1),
                    },
                    ..self.status
                },
            },
            None => self,
        }
    }

    /// The state after a frame that has been read.
    pub open spec fn after(self, frame: FrameView) -> LocalStateView {
        match frame {
            FrameView::Metadata(packet) => self.after_metadata(packet),
            FrameView::Battery(packet) => self.after_battery(packet),
            FrameView::InEar(packet) => self.after_in_ear(packet),
            FrameView::Unrecognized => self,
        }
    }

    /// The state after a frame as it came from the device.
    pub open spec fn after_packet(self, data: Seq<u8>) -> LocalStateView {
        self.after(classified(data))
    }

    /// The state after a run of frames, in their order.
    pub open spec fn after_packets(self, frames: Seq<Seq<u8>>) -> LocalStateView
        decreases frames.len(),
    {
        if frames.len() == 0 {
            self
        } else {
            self.after_packets(frames.drop_last()).after_packet(frames.last())
        }
    }
}

/// Reads a frame as the one kind whose marker it opens with.
pub fn classify(data: &[u8]) -> (frame: Frame)
    ensures
        frame@ == classified(data@),
{
    if let Some(packet) = MetadataPacket::parse(data) {
        Frame::Metadata(packet)
    } else if let Some(packet) = BatteryPacket::parse(data) {
        Frame::Battery(packet)
    } else if let Some(packet) = InEarPacket::parse(data) {
        Frame::InEar(packet)
    } else {
        Frame::Unrecognized
    }
}

impl LocalState {
    /// Takes over what a frame reports.
    pub fn apply(&mut self, frame: Frame)
        ensures
            final(self)@ == old(self)@.after(frame@),
    {
        match frame {
            Frame::Metadata(packet) => {
                self.status.metadata = Some(status::Metadata::from(packet));
            },
            Frame::Battery(packet) => {
                if self.primary == Pod::Neither {
                    self.primary = packet.primary;
                }
                if let Some(reading) = packet.left {
                    self.status.components.left = Some(status::ComponentStatus::from(reading));
                }
                if let Some(reading) = packet.right {
                    self.status.components.right = Some(status::ComponentStatus::from(reading));
                }
                if let Some(reading) = packet.case {
                    self.status.components.case = Some(status::ComponentStatus::from(reading));
                }
            },
            Frame::InEar(packet) => {
                if let Some(sides) = packet.get(self.primary) {
                    self.status.ear.left = status::EarStatus::from(sides[0]);
                    self.status.ear.right = status::EarStatus::from(sides[1]);
                }
            },
            Frame::Unrecognized => {},
        }
    }
}

/// Reads a frame and takes over what it reports. A frame of no known kind
/// changes nothing.
pub fn got_packet(state: &mut LocalState, data: &[u8])
    ensures
        final(state)@ == old(state)@.after_packet(data@),
{
    let frame = classify(data);
    state.apply(frame);
}

/// Where a session stands in its exchange with the earbuds.
#[derive(Debug, Clone, Copy, PartialEq, Eq, Structural)]
pub enum Phase {
    AwaitingHandshakeAck,
    AwaitingFeaturesAck,
    Streaming,
    Closed,
}

/// A message that the host sends to the earbuds.
#[derive(Debug, Clone, Copy, PartialEq, Eq, Structural)]
pub enum Command {
    Handshake,
    SetSpecificFeatures,
    RequestNotifications,
}

impl Command {
    /// The bytes of the message.
    pub open spec fn wire(self) -> Seq<u8> {
        match self {
            Command::Handshake => HANDSHAKE@,
            Command::SetSpecificFeatures => SET_SPECIFIC_FEATURES@,
            Command::RequestNotifications => REQUEST_NOTIFICATIONS@,
        }
    }

    /// The bytes of the message, to be written to the connection.
    pub fn bytes(&self) -> (out: Vec<u8>)
        ensures
            out@ == self.wire(),
    {
        match self {
            Command::Handshake => vstd::slice::slice_to_vec(HANDSHAKE.as_slice()),
            Command::SetSpecificFeatures => vstd::slice::slice_to_vec(
                SET_SPECIFIC_FEATURES.as_slice(),
            ),
            Command::RequestNotifications => vstd::slice::slice_to_vec(
                REQUEST_NOTIFICATIONS.as_slice(),
            ),
        }
    }
}

/// What the caller is to do after a frame.
#[derive(Debug)]
pub enum Action {
    /// Write this message to the connection.
    Send(Command),
    /// Merge this update into the shared snapshot and announce the result.
    Merge(EarbudUpdate),
    /// Nothing: the frame changed nothing that is announced.
    Nothing,
}

/// What an [`Action`] says.
pub enum ActionView {
    Send(Command),
    Merge(EarbudUpdateView),
    Nothing,
}

impl View for Action {
    type V = ActionView;

    open spec fn view(&self) -> ActionView {
        match *self {
            Action::Send(command) => ActionView::Send(command),
            Action::Merge(update) => ActionView::Merge(update@),
            Action::Nothing => ActionView::Nothing,
        }
    }
}

/// One session with the earbuds.
#[derive(Debug)]
pub struct Session {
    pub phase: Phase,
    pub local: LocalState,
}

/// What a [`Session`] says.
pub struct SessionView {
    pub phase: Phase,
    pub local: LocalStateView,
}

impl View for Session {
    type V = SessionView;

    open spec fn view(&self) -> SessionView {
        SessionView { phase: self.phase, local: self.local@ }
    }
}

/// Whether a frame is the device's answer to the handshake.
pub open spec fn is_handshake_ack(data: Seq<u8>) -> bool {
    HANDSHAKE_ACK@.is_prefix_of(data)
}

/// Whether a frame is the device's answer to the feature command.
pub open spec fn is_features_ack(data: Seq<u8>) -> bool {
    !is_handshake_ack(data) && FEATURES_ACK@.is_prefix_of(data)
}

impl SessionView {
    /// A session that has just been opened.
    pub open spec fn opened() -> SessionView {
        SessionView { phase: Phase::AwaitingHandshakeAck, local: LocalStateView::fresh() }
    }

    /// The session after a frame. The answer to the handshake makes it wait for
    /// the answer to the feature command, and that one starts the streaming;
    /// every other frame is read for what it reports. A closed session stays as
    /// it is.
    pub open spec fn after_frame(self, data: Seq<u8>) -> SessionView {
        if self.phase == Phase::Closed {
            self
        } else if is_handshake_ack(data) {
            SessionView { phase: Phase::AwaitingFeaturesAck, local: self.local }
        } else if is_features_ack(data) {
            SessionView { phase: Phase::Streaming, local: self.local }
        } else {
            SessionView { phase: self.phase, local: self.local.after_packet(data) }
        }
    }

    /// What the caller is to do after a frame. An acknowledgement is answered
    /// with the next command. Any other frame leads to a merge exactly when it
    /// changed the content hash of the session's copy of the snapshot.
    pub open spec fn action_for(self, data: Seq<u8>) -> ActionView {
        if self.phase == Phase::Closed {
            ActionView::Nothing
        } else if is_handshake_ack(data) {
            ActionView::Send(Command::SetSpecificFeatures)
        } else if is_features_ack(data) {
            ActionView::Send(Command::RequestNotifications)
        } else {
            let after = self.local.after_packet(data).status;
            if after.hash() != self.local.status.hash() {
                ActionView::Merge(after.earbuds())
            } else {
                ActionView::Nothing
            }
        }
    }

    /// The session after the connection has ended.
    pub open spec fn closed(self) -> SessionView {
        SessionView { phase: Phase::Closed, local: self.local }
    }
}

impl Session {
    /// Opens a session. The caller sends the handshake that comes with it.
    pub fn open() -> (opened: (Session, Command))
        ensures
            opened.0@ == SessionView::opened(),
            opened.1 == Command::Handshake,
    {
        (
            Session { phase: Phase::AwaitingHandshakeAck, local: LocalState::default() },
            Command::Handshake,
        )
    }

    /// Takes a frame from the device and says what to do.
    pub fn on_frame(&mut self, data: &[u8]) -> (action: Action)
        ensures
            final(self)@ == old(self)@.after_frame(data@),
            action@ == old(self)@.action_for(data@),
    {
        if self.phase == Phase::Closed {
            Action::Nothing
        } else if starts_with(data, HANDSHAKE_ACK.as_slice()) {
            self.phase = Phase::AwaitingFeaturesAck;
            Action::Send(Command::SetSpecificFeatures)
        } else if starts_with(data, FEATURES_ACK.as_slice()) {
            self.phase = Phase::Streaming;
            Action::Send(Command::RequestNotifications)
        } else {
            let before: u64 = self.local.status.hash();
            got_packet(&mut self.local, data);
            let after: u64 = self.local.status.hash();
            if after != before {
                Action::Merge(EarbudUpdate::of(&self.local.status))
            } else {
                Action::Nothing
            }
        }
    }

    /// Notes that the connection has ended: a read failed or brought no bytes.
    /// The caller then clears the earbuds from the shared snapshot.
    pub fn on_closed(&mut self)
        ensures
            final(self)@ == old(self)@.closed(),
    {
        self.phase = Phase::Closed;
    }
}

/// What a read brought.
#[derive(Debug)]
pub enum Read {
    /// No bytes: the connection has ended.
    Closed,
    /// A full chunk: the frame goes on with the next read.
    Partial,
    /// A short chunk: the frame is complete.
    Frame(Vec<u8>),
}

/// The bytes of the frame that is being read.
#[derive(Debug)]
pub struct FrameBuffer {
    pub data: Vec<u8>,
}

impl View for FrameBuffer {
    type V = Seq<u8>;

    open spec fn view(&self) -> Seq<u8> {
        self.data@
    }
}

impl FrameBuffer {
    /// An empty buffer.
    pub fn new() -> (buffer: Self)
        ensures
            buffer@ == Seq::<u8>::empty(),
    {
        FrameBuffer { data: Vec::new() }
    }

    /// Takes the bytes of one read.
    ///
    /// No bytes mean that the connection has ended; what was gathered is dropped.
    /// Fewer bytes than a full chunk complete the frame, which is handed out, and
    /// the buffer is empty again. A full chunk is kept and the frame goes on.
    pub fn push_chunk(&mut self, chunk: &[u8]) -> (read: Read)
        ensures
            match read {
                Read::Closed => chunk@.len() == 0 && final(self)@ == Seq::<u8>::empty(),
                Read::Frame(frame) => 0 < chunk@.len() < CHUNK_LEN && frame@ == old(self)@
                    + chunk@ && final(self)@ == Seq::<u8>::empty(),
                Read::Partial => chunk@.len() >= CHUNK_LEN && final(self)@ == old(self)@
                    + chunk@,
            },
    {
        if chunk.len() == 0 {
            self.data.clear();
            Read::Closed
        } else if chunk.len() < CHUNK_LEN {
            let mut frame: Vec<u8> = Vec::new();
            frame.append(&mut self.data);
            frame.extend_from_slice(chunk);
            assert(frame@ =~= old(self)@ + chunk@);
            Read::Frame(frame)
        } else {
            self.data.extend_from_slice(chunk);
            assert(self.data@ =~= old(self)@ + chunk@);
            Read::Partial
        }
    }
}

/// Whether a device that offers the services `uuids` is a pair of earbuds.
pub fn offers_airpods_service(uuids: &[u128]) -> (found: bool)
    ensures
        found == uuids@.contains(AIRPODS_SERVICE),
{
    let mut i: usize = 0;
    while i < uuids.len()
        invariant
            i <= uuids.len(),
            forall|j: int| 0 <= j < i ==> uuids@[j] != AIRPODS_SERVICE,
        decreases uuids.len() - i,
    {
        if uuids[i] == AIRPODS_SERVICE {
            return true;
        }
        i += 1;
    }
    false
}

/// Milliseconds to wait before the profile is connected again after a failure:
/// longer when the stack is still busy with an earlier attempt.
pub fn connect_backoff_millis(in_progress: bool) -> (millis: u64)
    ensures
        millis == (if in_progress {
            BUSY_BACKOFF_MILLIS
        } else {
            FAILURE_BACKOFF_MILLIS
        }),
{
    if in_progress {
        BUSY_BACKOFF_MILLIS
    } else {
        FAILURE_BACKOFF_MILLIS
    }
}

/// A session that is opened and then gets the two acknowledgements in turn
/// answers each with the next command and ends up streaming.
pub proof fn lemma_handshake_leads_to_streaming(first: Seq<u8>, second: Seq<u8>)
    requires
        is_handshake_ack(first),
        is_features_ack(second),
    ensures
        SessionView::opened().action_for(first) == ActionView::Send(Command::SetSpecificFeatures),
        SessionView::opened().after_frame(first).phase == Phase::AwaitingFeaturesAck,
        SessionView::opened().after_frame(first).action_for(second) == ActionView::Send(
            Command::RequestNotifications,
        ),
        SessionView::opened().after_frame(first).after_frame(second).phase == Phase::Streaming,
        SessionView::opened().after_frame(first).after_frame(second).local
            == LocalStateView::fresh(),
{
}

/// A frame is read as one kind at most: the kinds' markers exclude each other.
pub proof fn lemma_one_kind(data: Seq<u8>)
    ensures
        metadata::parsed(data) is Some ==> battery::parsed(data) is None && in_ear::parsed(data)
            is None,
        battery::parsed(data) is Some ==> metadata::parsed(data) is None && in_ear::parsed(data)
            is None,
        in_ear::parsed(data) is Some ==> metadata::parsed(data) is None && battery::parsed(data)
            is None,
{
    lemma_markers_exclusive(data);
}

/// Once a primary earbud is known, no frame changes it.
pub proof fn lemma_primary_is_sticky(state: LocalStateView, data: Seq<u8>)
    requires
        state.primary != Pod::Neither,
    ensures
        state.after_packet(data).primary == state.primary,
{
}

/// Once a primary earbud is known, no run of frames changes it.
pub proof fn lemma_primary_stays(state: LocalStateView, frames: Seq<Seq<u8>>)
    requires
        state.primary != Pod::Neither,
    ensures
        state.after_packets(frames).primary == state.primary,
    decreases frames.len(),
{
    if frames.len() > 0 {
        lemma_primary_stays(state, frames.drop_last());
        lemma_primary_is_sticky(state.after_packets(frames.drop_last()), frames.last());
    }
}

/// The earbud that the first battery frame of a session names first stays the
/// primary one: whatever frames follow, an in-ear frame is attributed by it.
pub proof fn lemma_first_earbud_attributes_positions(
    state: LocalStateView,
    first: Seq<u8>,
    between: Seq<Seq<u8>>,
    last: Seq<u8>,
)
    requires
        state.primary == Pod::Neither,
        battery::parsed(first) is Some,
        battery::parsed(first).unwrap().primary != Pod::Neither,
        in_ear::parsed(last) is Some,
    ensures
        ({
            let primary = battery::parsed(first).unwrap().primary;
            let packet = in_ear::parsed(last).unwrap();
            let end = state.after_packet(first).after_packets(between).after_packet(last);
            &&& end.primary == primary
            &&& attributed(packet, primary) matches Some(sides)
            &&& end.status.ear == (InEar {
                left: position_in_snapshot(sides.0),
                right: position_in_snapshot(sides.1),
            })
        }),
{
    lemma_one_kind(first);
    lemma_one_kind(last);
    lemma_primary_stays(state.after_packet(first), between);
}

/// A frame that comes a second time changes nothing.
pub proof fn lemma_repeat_changes_nothing(state: LocalStateView, data: Seq<u8>)
    ensures
        state.after_packet(data).after_packet(data) == state.after_packet(data),
{
}

/// A frame that comes a second time, unchanged, leads to no merge: the hash of
/// the session's copy of the snapshot is what it was after the first time.
pub proof fn lemma_repeat_is_silent(session: SessionView, data: Seq<u8>)
    ensures
        !(session.after_frame(data).action_for(data) is Merge),
{
    lemma_repeat_changes_nothing(session.local, data);
}

/// Frames change the earbud fields only: the list of peripherals in a session's
/// copy of the snapshot stays empty.
pub proof fn lemma_session_owns_earbuds_only(state: LocalStateView, data: Seq<u8>)
    ensures
        state.after_packet(data).status.devices == state.status.devices,
{
}

} // verus!
