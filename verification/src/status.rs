//! The status snapshot that the daemon announces, and the types it is made of.

use vstd::prelude::*;
use vstd::std_specs::hash::DefaultHasherAdditionalSpecFns;
use vstd::utf8::{encode_utf8, encode_utf8_decode_utf8};
use std::collections::hash_map::DefaultHasher;
use std::hash::Hasher;

verus! {

/// Whether a battery is being charged.
#[derive(Clone, Copy, Debug, PartialEq, Eq, Hash, Structural)]
pub enum BatteryStatus {
    Charging,
    Discharging,
    Disconnected,
}

/// Where an earbud currently is.
#[derive(Clone, Copy, Debug, PartialEq, Eq, Hash, Structural)]
pub enum EarStatus {
    InEar,
    NotInEar,
    InCase,
    Disconnected,
}

impl Default for EarStatus {
    fn default() -> (r: Self)
        ensures
            r == EarStatus::Disconnected,
    {
        EarStatus::Disconnected
    }
}

/// Charge of one earbud or of the case.
#[derive(Clone, Copy, Debug, PartialEq, Eq, Hash, Structural)]
pub struct ComponentStatus {
    pub level: u8,
    pub status: BatteryStatus,
}

/// Charge of both earbuds and the case; a part that has not reported is absent.
#[derive(Clone, Copy, Debug, Hash)]
pub struct Components {
    pub left: Option<ComponentStatus>,
    pub right: Option<ComponentStatus>,
    pub case: Option<ComponentStatus>,
}

impl Default for Components {
    fn default() -> (r: Self)
        ensures
            r == Components::absent(),
    {
        Components { left: None, right: None, case: None }
    }
}

/// Where each earbud is.
#[derive(Clone, Copy, Debug, PartialEq, Eq, Hash, Structural)]
pub struct InEar {
    pub left: EarStatus,
    pub right: EarStatus,
}

impl Default for InEar {
    fn default() -> (r: Self)
        ensures
            r == InEar::disconnected(),
    {
        InEar { left: EarStatus::Disconnected, right: EarStatus::Disconnected }
    }
}

impl InEar {
    /// Both earbuds out of reach.
    pub open spec fn disconnected() -> InEar {
        InEar { left: EarStatus::Disconnected, right: EarStatus::Disconnected }
    }
}

/// Name and model that the earbuds report of themselves.
#[derive(Debug, Hash)]
pub struct Metadata {
    pub name: String,
    pub model: String,
}

/// What a [`Metadata`] says, as text.
pub struct MetadataView {
    pub name: Seq<char>,
    pub model: Seq<char>,
}

impl View for Metadata {
    type V = MetadataView;

    open spec fn view(&self) -> MetadataView {
        MetadataView { name: self.name@, model: self.model@ }
    }
}

impl Clone for Metadata {
    fn clone(&self) -> (r: Self)
        ensures
            r@ == self@,
    {
        Metadata { name: self.name.clone(), model: self.model.clone() }
    }
}

/// Battery of a peripheral other than the earbuds.
#[derive(Debug, Hash)]
pub struct GenericDeviceStatus {
    pub name: String,
    pub battery: u8,
    pub text: Option<String>,
    pub status: BatteryStatus,
}

/// What a [`GenericDeviceStatus`] says, as text and numbers.
pub struct GenericDeviceView {
    pub name: Seq<char>,
    pub battery: u8,
    pub text: Option<Seq<char>>,
    pub status: BatteryStatus,
}

/// The text of an optional string.
pub open spec fn text_view(text: Option<String>) -> Option<Seq<char>> {
    match text {
        Some(t) => Some(t@),
        None => None,
    }
}

/// A copy of an optional string.
pub fn clone_text(text: &Option<String>) -> (r: Option<String>)
    ensures
        text_view(r) == text_view(*text),
{
    match text {
        Some(t) => Some(t.clone()),
        None => None,
    }
}

impl View for GenericDeviceStatus {
    type V = GenericDeviceView;

    open spec fn view(&self) -> GenericDeviceView {
        GenericDeviceView {
            name: self.name@,
            battery: self.battery,
            text: text_view(self.text),
            status: self.status,
        }
    }
}

impl Clone for GenericDeviceStatus {
    fn clone(&self) -> (r: Self)
        ensures
            r@ == self@,
    {
        GenericDeviceStatus {
            name: self.name.clone(),
            battery: self.battery,
            text: clone_text(&self.text),
            status: self.status,
        }
    }
}

/// The snapshot: what is known of the earbuds and of the other peripherals.
///
/// `metadata`, `components` and `ear` belong to the earbud sources, `devices` to
/// the source that watches the other peripherals. A peripheral that is not
/// connected, or whose battery cannot be read, has no entry in `devices`.
#[derive(Debug, Hash)]
pub struct Status {
    pub metadata: Option<Metadata>,
    pub components: Components,
    pub ear: InEar,
    pub devices: Vec<GenericDeviceStatus>,
}

/// What a [`Status`] says: the mathematical value that contracts speak of.
pub struct StatusView {
    pub metadata: Option<MetadataView>,
    pub components: Components,
    pub ear: InEar,
    pub devices: Seq<GenericDeviceView>,
}

/// What an optional [`Metadata`] says.
pub open spec fn metadata_view(metadata: Option<Metadata>) -> Option<MetadataView> {
    match metadata {
        Some(m) => Some(m@),
        None => None,
    }
}

/// What a list of device entries says, entry by entry.
pub open spec fn devices_view(devices: Seq<GenericDeviceStatus>) -> Seq<GenericDeviceView> {
    devices.map_values(|d: GenericDeviceStatus| d@)
}

/// A copy of an optional [`Metadata`].
pub fn clone_metadata(metadata: &Option<Metadata>) -> (r: Option<Metadata>)
    ensures
        metadata_view(r) == metadata_view(*metadata),
{
    match metadata {
        Some(m) => Some(m.clone()),
        None => None,
    }
}

/// A copy of a list of device entries, in the same order.
pub fn clone_devices(devices: &Vec<GenericDeviceStatus>) -> (r: Vec<GenericDeviceStatus>)
    ensures
        devices_view(r@) == devices_view(devices@),
{
    let mut out: Vec<GenericDeviceStatus> = Vec::new();
    let mut i: usize = 0;
    while i < devices.len()
        invariant
            i <= devices.len(),
            out@.len() == i,
            forall|j: int| 0 <= j < i ==> out@[j]@ == devices@[j]@,
        decreases devices.len() - i,
    {
        out.push(devices[i].clone());
        i += 1;
    }
    assert(devices_view(out@) =~= devices_view(devices@));
    out
}

impl View for Status {
    type V = StatusView;

    open spec fn view(&self) -> StatusView {
        StatusView {
            metadata: metadata_view(self.metadata),
            components: self.components,
            ear: self.ear,
            devices: devices_view(self.devices@),
        }
    }
}

impl Clone for Status {
    fn clone(&self) -> (r: Self)
        ensures
            r@ == self@,
    {
        Status {
            metadata: clone_metadata(&self.metadata),
            components: self.components,
            ear: self.ear,
            devices: clone_devices(&self.devices),
        }
    }
}

impl Default for Status {
    fn default() -> (r: Self)
        ensures
            r@ == StatusView::empty(),
    {
        let r = Status {
            metadata: None,
            components: Components { left: None, right: None, case: None },
            ear: InEar { left: EarStatus::Disconnected, right: EarStatus::Disconnected },
            devices: Vec::new(),
        };
        assert(devices_view(r.devices@) =~= Seq::empty());
        r
    }
}

impl StatusView {
    /// The snapshot of a daemon that has heard from no device.
    pub open spec fn empty() -> StatusView {
        StatusView {
            metadata: None,
            components: Components::absent(),
            ear: InEar::disconnected(),
            devices: Seq::empty(),
        }
    }

    /// Whether the snapshot has anything to show: a part of the earbuds that
    /// reported, or a peripheral.
    pub open spec fn is_valid(self) -> bool {
        self.components.left is Some || self.components.right is Some
            || self.components.case is Some || self.devices.len() > 0
    }
}

/// The level of a part that is running on its battery; `u8::MAX` for a part that
/// is absent, charging or disconnected.
pub open spec fn discharging_level(component: Option<ComponentStatus>) -> u8 {
    match component {
        Some(c) => if c.status == BatteryStatus::Discharging {
            c.level
        } else {
            u8::MAX
        },
        None => u8::MAX,
    }
}

impl Components {
    /// No part has reported.
    pub open spec fn absent() -> Components {
        Components { left: None, right: None, case: None }
    }

    /// The lower of the two earbuds' levels, counting only an earbud that is
    /// running on its battery; `u8::MAX` when neither is.
    pub open spec fn min_pods(self) -> u8 {
        let l = discharging_level(self.left);
        let r = discharging_level(self.right);
        if l <= r {
            l
        } else {
            r
        }
    }

    /// The three parts by mutable reference: left, right, case.
    pub fn as_arr_mut(&mut self) -> (arr: [&mut Option<ComponentStatus>; 3])
        ensures
            *arr[0] == old(self).left,
            *arr[1] == old(self).right,
            *arr[2] == old(self).case,
            final(self).left == *final(arr[0]),
            final(self).right == *final(arr[1]),
            final(self).case == *final(arr[2]),
    {
        [&mut self.left, &mut self.right, &mut self.case]
    }
}

impl Status {
    /// Whether the snapshot has anything to show.
    #[must_use]
    pub fn is_valid(&self) -> (b: bool)
        ensures
            b == self@.is_valid(),
    {
        self.components.left.is_some() || self.components.right.is_some()
            || self.components.case.is_some() || self.devices.len() > 0
    }

    /// The lower level of the earbuds that are running on battery, `u8::MAX` if none is.
    #[must_use]
    pub fn min_pods(&self) -> (level: u8)
        ensures
            level == self@.components.min_pods(),
    {
        let mut out: u8 = u8::MAX;
        if let Some(c) = self.components.left {
            if c.status == BatteryStatus::Discharging && c.level < out {
                out = c.level;
            }
        }
        if let Some(c) = self.components.right {
            if c.status == BatteryStatus::Discharging && c.level < out {
                out = c.level;
            }
        }
        out
    }
}

/// The byte that stands for a charging state where a snapshot is hashed.
pub open spec fn battery_code(status: BatteryStatus) -> u8 {
    match status {
        BatteryStatus::Charging => 1,
        BatteryStatus::Discharging => 2,
        BatteryStatus::Disconnected => 4,
    }
}

/// The byte that stands for a wearing state where a snapshot is hashed.
pub open spec fn ear_code(status: EarStatus) -> u8 {
    match status {
        EarStatus::InEar => 0,
        EarStatus::NotInEar => 1,
        EarStatus::InCase => 2,
        EarStatus::Disconnected => 3,
    }
}

/// What is written to a hasher for a text: its UTF-8 bytes, then a byte that
/// occurs in no UTF-8 text.
pub open spec fn text_writes(text: Seq<char>) -> Seq<Seq<u8>> {
    seq![encode_utf8(text), seq![0xffu8]]
}

/// What is written for a text that may be absent: a byte that says whether it is
/// there, then the text, the empty one if it is not.
pub open spec fn optional_text_writes(text: Option<Seq<char>>) -> Seq<Seq<u8>> {
    match text {
        Some(t) => seq![seq![1u8]] + text_writes(t),
        None => seq![seq![0u8]] + text_writes(Seq::empty()),
    }
}

/// What is written for the metadata: whether it is there, then name and model.
pub open spec fn metadata_writes(metadata: Option<MetadataView>) -> Seq<Seq<u8>> {
    match metadata {
        Some(m) => seq![seq![1u8]] + text_writes(m.name) + text_writes(m.model),
        None => seq![seq![0u8]] + text_writes(Seq::empty()) + text_writes(Seq::empty()),
    }
}

/// The three bytes written for one part: whether it reported, its level, its state.
pub open spec fn component_bytes(component: Option<ComponentStatus>) -> Seq<u8> {
    match component {
        Some(c) => seq![1u8, c.level, battery_code(c.status)],
        None => seq![0u8, 0u8, 0u8],
    }
}

/// What is written for the earbuds' charge and positions.
pub open spec fn earbud_writes(components: Components, ear: InEar) -> Seq<Seq<u8>> {
    seq![
        component_bytes(components.left),
        component_bytes(components.right),
        component_bytes(components.case),
        seq![ear_code(ear.left), ear_code(ear.right)],
    ]
}

/// What is written for one peripheral.
pub open spec fn device_writes(device: GenericDeviceView) -> Seq<Seq<u8>> {
    seq![seq![1u8]] + text_writes(device.name) + seq![
        seq![device.battery, battery_code(device.status)],
    ] + optional_text_writes(device.text)
}

/// What is written for the peripherals, in their order.
pub open spec fn devices_writes(devices: Seq<GenericDeviceView>) -> Seq<Seq<u8>>
    decreases devices.len(),
{
    if devices.len() == 0 {
        Seq::empty()
    } else {
        devices_writes(devices.drop_last()) + device_writes(devices.last())
    }
}

impl StatusView {
    /// Everything that is written to a hasher for a snapshot, write by write.
    /// Every write is of a fixed length or closed by a byte that it cannot hold,
    /// and the list of peripherals is closed by a zero byte.
    pub open spec fn writes(self) -> Seq<Seq<u8>> {
        metadata_writes(self.metadata) + earbud_writes(self.components, self.ear) + devices_writes(
            self.devices,
        ) + seq![seq![0u8]]
    }

    /// The content hash of a snapshot: what the standard library's default hasher
    /// makes of [`StatusView::writes`].
    pub open spec fn hash(self) -> u64 {
        DefaultHasher::spec_finish(self.writes())
    }
}

fn battery_byte(status: BatteryStatus) -> (code: u8)
    ensures
        code == battery_code(status),
{
    match status {
        BatteryStatus::Charging => 1,
        BatteryStatus::Discharging => 2,
        BatteryStatus::Disconnected => 4,
    }
}

fn ear_byte(status: EarStatus) -> (code: u8)
    ensures
        code == ear_code(status),
{
    match status {
        EarStatus::InEar => 0,
        EarStatus::NotInEar => 1,
        EarStatus::InCase => 2,
        EarStatus::Disconnected => 3,
    }
}

fn feed_byte(hasher: &mut DefaultHasher, byte: u8)
    ensures
        final(hasher)@ == old(hasher)@.push(seq![byte]),
{
    let one: [u8; 1] = [byte];
    hasher.write(one.as_slice());
    assert(one@ =~= seq![byte]);
}

fn feed_text(hasher: &mut DefaultHasher, text: &str)
    ensures
        final(hasher)@ == old(hasher)@ + text_writes(text@),
{
    hasher.write(text.as_bytes());
    feed_byte(hasher, 0xff);
    assert(hasher@ =~= old(hasher)@ + text_writes(text@));
}

fn feed_optional_text(hasher: &mut DefaultHasher, text: &Option<String>)
    ensures
        final(hasher)@ == old(hasher)@ + optional_text_writes(text_view(*text)),
{
    match text {
        Some(t) => {
            feed_byte(hasher, 1);
            feed_text(hasher, t.as_str());
        },
        None => {
            feed_byte(hasher, 0);
            feed_text(hasher, "");
            proof {
                reveal_strlit("");
                assert(""@ =~= Seq::<char>::empty());
            }
        },
    }
    assert(hasher@ =~= old(hasher)@ + optional_text_writes(text_view(*text)));
}

fn feed_metadata(hasher: &mut DefaultHasher, metadata: &Option<Metadata>)
    ensures
        final(hasher)@ == old(hasher)@ + metadata_writes(metadata_view(*metadata)),
{
    match metadata {
        Some(m) => {
            feed_byte(hasher, 1);
            feed_text(hasher, m.name.as_str());
            feed_text(hasher, m.model.as_str());
        },
        None => {
            feed_byte(hasher, 0);
            feed_text(hasher, "");
            feed_text(hasher, "");
            proof {
                reveal_strlit("");
                assert(""@ =~= Seq::<char>::empty());
            }
        },
    }
    assert(hasher@ =~= old(hasher)@ + metadata_writes(metadata_view(*metadata)));
}

fn feed_component(hasher: &mut DefaultHasher, component: &Option<ComponentStatus>)
    ensures
        final(hasher)@ == old(hasher)@.push(component_bytes(*component)),
{
    let bytes: [u8; 3] = match component {
        Some(c) => [1, c.level, battery_byte(c.status)],
        None => [0, 0, 0],
    };
    hasher.write(bytes.as_slice());
    assert(bytes@ =~= component_bytes(*component));
}

fn feed_earbuds(hasher: &mut DefaultHasher, components: &Components, ear: &InEar)
    ensures
        final(hasher)@ == old(hasher)@ + earbud_writes(*components, *ear),
{
    feed_component(hasher, &components.left);
    feed_component(hasher, &components.right);
    feed_component(hasher, &components.case);
    let sides: [u8; 2] = [ear_byte(ear.left), ear_byte(ear.right)];
    hasher.write(sides.as_slice());
    assert(sides@ =~= seq![ear_code(ear.left), ear_code(ear.right)]);
    assert(hasher@ =~= old(hasher)@ + earbud_writes(*components, *ear));
}

fn feed_device(hasher: &mut DefaultHasher, device: &GenericDeviceStatus)
    ensures
        final(hasher)@ == old(hasher)@ + device_writes(device@),
{
    feed_byte(hasher, 1);
    feed_text(hasher, device.name.as_str());
    let charge: [u8; 2] = [device.battery, battery_byte(device.status)];
    hasher.write(charge.as_slice());
    assert(charge@ =~= seq![device.battery, battery_code(device.status)]);
    feed_optional_text(hasher, &device.text);
    assert(hasher@ =~= old(hasher)@ + device_writes(device@));
}

fn feed_devices(hasher: &mut DefaultHasher, devices: &Vec<GenericDeviceStatus>)
    ensures
        final(hasher)@ == old(hasher)@ + devices_writes(devices_view(devices@)),
{
    let ghost all = devices_view(devices@);
    let mut i: usize = 0;
    assert(hasher@ =~= old(hasher)@ + devices_writes(all.take(0)));
    while i < devices.len()
        invariant
            i <= devices.len(),
            all == devices_view(devices@),
            hasher@ == old(hasher)@ + devices_writes(all.take(i as int)),
        decreases devices.len() - i,
    {
        feed_device(hasher, &devices[i]);
        proof {
            let next = all.take(i + 1);
            assert(next.drop_last() =~= all.take(i as int));
            assert(next.last() == devices@[i as int]@);
            assert(hasher@ =~= old(hasher)@ + devices_writes(next));
        }
        i += 1;
    }
    assert(all.take(i as int) =~= all);
}

impl Status {
    /// The content hash of the snapshot, by which a source tells whether what it
    /// would announce differs from what it announced last. Snapshots that say
    /// the same have the same hash.
    #[must_use]
    pub fn hash(&self) -> (h: u64)
        ensures
            h == self@.hash(),
    {
        let mut hasher = DefaultHasher::new();
        feed_metadata(&mut hasher, &self.metadata);
        feed_earbuds(&mut hasher, &self.components, &self.ear);
        feed_devices(&mut hasher, &self.devices);
        feed_byte(&mut hasher, 0);
        assert(hasher@ =~= self@.writes());
        hasher.finish()
    }
}

/// Two texts with the same UTF-8 bytes are the same text.
proof fn lemma_text_of_bytes(a: Seq<char>, b: Seq<char>)
    requires
        encode_utf8(a) == encode_utf8(b),
    ensures
        a == b,
{
    encode_utf8_decode_utf8(a);
    encode_utf8_decode_utf8(b);
}

/// What is written for a part tells the part.
proof fn lemma_component_of_bytes(a: Option<ComponentStatus>, b: Option<ComponentStatus>)
    requires
        component_bytes(a) == component_bytes(b),
    ensures
        a == b,
{
    let x = component_bytes(a);
    let y = component_bytes(b);
    assert(x[0] == y[0] && x[1] == y[1] && x[2] == y[2]);
}

/// What is written for the metadata tells the metadata.
proof fn lemma_metadata_of_writes(a: Option<MetadataView>, b: Option<MetadataView>)
    requires
        metadata_writes(a) == metadata_writes(b),
    ensures
        a == b,
{
    let x = metadata_writes(a);
    let y = metadata_writes(b);
    assert(x.len() == 5 && y.len() == 5);
    assert(x[0] == y[0] && x[1] == y[1] && x[3] == y[3]);
    assert(x[0][0] == y[0][0]);
    match (a, b) {
        (Some(m), Some(n)) => {
            assert(x[1] == encode_utf8(m.name) && x[3] == encode_utf8(m.model));
            assert(y[1] == encode_utf8(n.name) && y[3] == encode_utf8(n.model));
            lemma_text_of_bytes(m.name, n.name);
            lemma_text_of_bytes(m.model, n.model);
        },
        _ => {},
    }
}

/// What is written for a peripheral tells the peripheral.
proof fn lemma_device_of_writes(a: GenericDeviceView, b: GenericDeviceView)
    requires
        device_writes(a) == device_writes(b),
    ensures
        a == b,
{
    let x = device_writes(a);
    let y = device_writes(b);
    assert(x.len() == 7 && y.len() == 7);
    assert(x[1] == y[1] && x[3] == y[3] && x[4] == y[4] && x[5] == y[5]);
    assert(x[1] == encode_utf8(a.name) && y[1] == encode_utf8(b.name));
    lemma_text_of_bytes(a.name, b.name);
    assert(x[3][0] == y[3][0] && x[3][1] == y[3][1]);
    assert(x[3][0] == a.battery && y[3][0] == b.battery);
    assert(x[3][1] == battery_code(a.status) && y[3][1] == battery_code(b.status));
    assert(x[4][0] == y[4][0]);
    match (a.text, b.text) {
        (Some(t), Some(u)) => {
            assert(x[5] == encode_utf8(t) && y[5] == encode_utf8(u));
            lemma_text_of_bytes(t, u);
        },
        (None, None) => {},
        (Some(t), None) => {
            assert(x[4][0] == 1u8 && y[4][0] == 0u8);
        },
        (None, Some(u)) => {
            assert(x[4][0] == 0u8 && y[4][0] == 1u8);
        },
    }
}

/// Seven writes are made for each peripheral.
proof fn lemma_devices_writes_len(devices: Seq<GenericDeviceView>)
    ensures
        devices_writes(devices).len() == 7 * devices.len(),
    decreases devices.len(),
{
    if devices.len() > 0 {
        lemma_devices_writes_len(devices.drop_last());
        assert(device_writes(devices.last()).len() == 7);
    }
}

/// What is written for the peripherals tells the peripherals, in their order.
proof fn lemma_devices_of_writes(a: Seq<GenericDeviceView>, b: Seq<GenericDeviceView>)
    requires
        devices_writes(a) == devices_writes(b),
    ensures
        a == b,
    decreases a.len(),
{
    lemma_devices_writes_len(a);
    lemma_devices_writes_len(b);
    if a.len() == 0 {
        assert(a =~= b);
    } else {
        let head_a = devices_writes(a.drop_last());
        let head_b = devices_writes(b.drop_last());
        let last_a = device_writes(a.last());
        let last_b = device_writes(b.last());
        lemma_devices_writes_len(a.drop_last());
        lemma_devices_writes_len(b.drop_last());
        assert(last_a.len() == 7 && last_b.len() == 7);
        let all = devices_writes(a);
        let cut = head_a.len() as int;
        assert(head_a =~= all.subrange(0, cut));
        assert(head_b =~= all.subrange(0, cut));
        assert(last_a =~= all.subrange(cut, all.len() as int));
        assert(last_b =~= all.subrange(cut, all.len() as int));
        lemma_device_of_writes(a.last(), b.last());
        lemma_devices_of_writes(a.drop_last(), b.drop_last());
        assert(a =~= a.drop_last().push(a.last()));
        assert(b =~= b.drop_last().push(b.last()));
    }
}

/// Snapshots for which the same is written to the hasher say the same: the
/// content hash can take two snapshots for one only where the hasher itself
/// maps different input to one number.
pub proof fn lemma_writes_tell_snapshots_apart(a: StatusView, b: StatusView)
    requires
        a.writes() == b.writes(),
    ensures
        a == b,
{
    let x = a.writes();
    let y = b.writes();
    let ma = metadata_writes(a.metadata);
    let mb = metadata_writes(b.metadata);
    let ea = earbud_writes(a.components, a.ear);
    let eb = earbud_writes(b.components, b.ear);
    let da = devices_writes(a.devices);
    let db = devices_writes(b.devices);
    lemma_devices_writes_len(a.devices);
    lemma_devices_writes_len(b.devices);
    assert(ma.len() == 5 && mb.len() == 5);
    assert(ea.len() == 4 && eb.len() == 4);
    assert(x.len() == 10 + da.len() && y.len() == 10 + db.len());
    assert(ma =~= x.subrange(0, 5));
    assert(mb =~= y.subrange(0, 5));
    lemma_metadata_of_writes(a.metadata, b.metadata);
    assert(ea =~= x.subrange(5, 9));
    assert(eb =~= y.subrange(5, 9));
    assert(ea[0] == eb[0] && ea[1] == eb[1] && ea[2] == eb[2] && ea[3] == eb[3]);
    lemma_component_of_bytes(a.components.left, b.components.left);
    lemma_component_of_bytes(a.components.right, b.components.right);
    lemma_component_of_bytes(a.components.case, b.components.case);
    assert(ea[3][0] == eb[3][0] && ea[3][1] == eb[3][1]);
    assert(a.ear.left == b.ear.left && a.ear.right == b.ear.right);
    assert(da =~= x.subrange(9, 9 + da.len() as int));
    assert(db =~= y.subrange(9, 9 + db.len() as int));
    lemma_devices_of_writes(a.devices, b.devices);
}

/// Snapshots that say the same have the same content hash.
pub proof fn lemma_same_content_same_hash(a: StatusView, b: StatusView)
    requires
        a == b,
    ensures
        a.hash() == b.hash(),
{
}

/// The glyph of each wearing state, as code points of the icon font.
pub open spec fn icon_text(status: EarStatus) -> Seq<char> {
    match status {
        EarStatus::InEar => seq!['\u{f184f}'],
        EarStatus::NotInEar => seq!['\u{f1852}'],
        EarStatus::InCase => seq!['\u{f1851}'],
        EarStatus::Disconnected => Seq::empty(),
    }
}

impl EarStatus {
    /// The glyph that stands for this wearing state; none for an earbud out of reach.
    #[must_use]
    pub fn icon(&self) -> (glyph: &'static str)
        ensures
            glyph@ == icon_text(*self),
    {
        proof {
            reveal_strlit("\u{f184f}");
            reveal_strlit("\u{f1852}");
            reveal_strlit("\u{f1851}");
            reveal_strlit("");
        }
        let glyph = match self {
            EarStatus::InEar => "\u{f184f}",
            EarStatus::NotInEar => "\u{f1852}",
            EarStatus::InCase => "\u{f1851}",
            EarStatus::Disconnected => "",
        };
        assert(glyph@ =~= icon_text(*self));
        glyph
    }
}

} // verus!
