//! The one snapshot that all sources write into.
//!
//! The earbud sources own the metadata, the charge and the positions of the
//! earbuds; the source that watches the other peripherals owns their list. Every
//! operation writes the fields of one owner and leaves the others as they were,
//! so the order in which sources merge does not matter to what each of them
//! contributed. The caller guards the store with a lock, holds it for one
//! operation, and announces the snapshot that the operation hands back.

use vstd::prelude::*;
use crate::status::{
    clone_metadata, metadata_view, Components, EarStatus, GenericDeviceStatus, GenericDeviceView,
    InEar, Metadata, MetadataView, Status, StatusView, devices_view,
};

verus! {

/// What an earbud session has learned: the fields that it owns.
#[derive(Debug)]
pub struct EarbudUpdate {
    pub metadata: Option<Metadata>,
    pub components: Components,
    pub ear: InEar,
}

/// What an [`EarbudUpdate`] says.
pub struct EarbudUpdateView {
    pub metadata: Option<MetadataView>,
    pub components: Components,
    pub ear: InEar,
}

impl View for EarbudUpdate {
    type V = EarbudUpdateView;

    open spec fn view(&self) -> EarbudUpdateView {
        EarbudUpdateView {
            metadata: metadata_view(self.metadata),
            components: self.components,
            ear: self.ear,
        }
    }
}

impl StatusView {
    /// The fields that the earbud sources own.
    pub open spec fn earbuds(self) -> EarbudUpdateView {
        EarbudUpdateView { metadata: self.metadata, components: self.components, ear: self.ear }
    }

    /// The snapshot with the earbud fields of `update`, its peripherals kept.
    pub open spec fn with_earbuds(self, update: EarbudUpdateView) -> StatusView {
        StatusView {
            metadata: update.metadata,
            components: update.components,
            ear: update.ear,
            devices: self.devices,
        }
    }

    /// The snapshot with new charge and positions of the earbuds, its metadata
    /// and its peripherals kept.
    pub open spec fn with_buds(self, components: Components, ear: InEar) -> StatusView {
        StatusView { metadata: self.metadata, components, ear, devices: self.devices }
    }

    /// The snapshot with a new list of peripherals, its earbud fields kept.
    pub open spec fn with_devices(self, devices: Seq<GenericDeviceView>) -> StatusView {
        StatusView {
            metadata: self.metadata,
            components: self.components,
            ear: self.ear,
            devices,
        }
    }

    /// The snapshot after the earbuds have gone: no metadata, no part reporting,
    /// both earbuds out of reach; its peripherals kept.
    pub open spec fn without_earbuds(self) -> StatusView {
        StatusView {
            metadata: None,
            components: Components::absent(),
            ear: InEar::disconnected(),
            devices: self.devices,
        }
    }

    /// The snapshot after the buds have gone. Charge and positions are cleared
    /// only where no metadata is present: metadata marks them as the report of a
    /// live earbud session, which is not to be overwritten.
    pub open spec fn without_unclaimed_buds(self) -> StatusView {
        if self.metadata is None {
            self.with_buds(Components::absent(), InEar::disconnected())
        } else {
            self
        }
    }
}

/// The shared snapshot. Its fields change only through the operations below.
#[derive(Debug)]
pub struct StatusStore {
    status: Status,
}

impl View for StatusStore {
    type V = StatusView;

    closed spec fn view(&self) -> StatusView {
        self.status@
    }
}

impl StatusStore {
    /// A store that has heard from no device.
    pub fn new() -> (store: Self)
        ensures
            store@ == StatusView::empty(),
    {
        StatusStore { status: Status::default() }
    }

    /// A copy of the snapshot, to be announced.
    pub fn snapshot(&self) -> (status: Status)
        ensures
            status@ == self@,
    {
        self.status.clone()
    }

    /// Takes over what an earbud session has learned and returns the merged
    /// snapshot. The peripherals stay as they are.
    pub fn merge_earbuds(&mut self, update: EarbudUpdate) -> (status: Status)
        ensures
            final(self)@ == old(self)@.with_earbuds(update@),
            final(self)@.devices == old(self)@.devices,
            status@ == final(self)@,
    {
        self.status.metadata = update.metadata;
        self.status.components = update.components;
        self.status.ear = update.ear;
        self.status.clone()
    }

    /// Takes over what the buds have streamed and returns the merged snapshot.
    /// Metadata and peripherals stay as they are.
    pub fn merge_buds(&mut self, components: Components, ear: InEar) -> (status: Status)
        ensures
            final(self)@ == old(self)@.with_buds(components, ear),
            final(self)@.metadata == old(self)@.metadata,
            final(self)@.devices == old(self)@.devices,
            status@ == final(self)@,
    {
        self.status.components = components;
        self.status.ear = ear;
        self.status.clone()
    }

    /// Replaces the list of peripherals and returns the merged snapshot. The
    /// earbud fields stay as they are.
    pub fn replace_devices(&mut self, devices: Vec<GenericDeviceStatus>) -> (status: Status)
        ensures
            final(self)@ == old(self)@.with_devices(devices_view(devices@)),
            final(self)@.earbuds() == old(self)@.earbuds(),
            status@ == final(self)@,
    {
        self.status.devices = devices;
        self.status.clone()
    }

    /// Forgets the earbuds after their session has ended and returns the merged
    /// snapshot: no metadata, no part reporting, both earbuds out of reach. The
    /// peripherals stay as they are.
    pub fn clear_earbuds(&mut self) -> (status: Status)
        ensures
            final(self)@ == old(self)@.without_earbuds(),
            final(self)@.devices == old(self)@.devices,
            status@ == final(self)@,
    {
        self.status.metadata = None;
        self.status.components = Components { left: None, right: None, case: None };
        self.status.ear = InEar { left: EarStatus::Disconnected, right: EarStatus::Disconnected };
        self.status.clone()
    }

    /// Forgets what the buds streamed, unless metadata shows that an earbud
    /// session is reporting, and returns the merged snapshot.
    pub fn clear_unclaimed_buds(&mut self) -> (status: Status)
        ensures
            final(self)@ == old(self)@.without_unclaimed_buds(),
            final(self)@.metadata == old(self)@.metadata,
            final(self)@.devices == old(self)@.devices,
            status@ == final(self)@,
    {
        if self.status.metadata.is_none() {
            self.status.components = Components { left: None, right: None, case: None };
            self.status.ear = InEar {
                left: EarStatus::Disconnected,
                right: EarStatus::Disconnected,
            };
        }
        self.status.clone()
    }
}

impl EarbudUpdate {
    /// The earbud fields of a snapshot, copied.
    pub fn of(status: &Status) -> (update: Self)
        ensures
            update@ == status@.earbuds(),
    {
        EarbudUpdate {
            metadata: clone_metadata(&status.metadata),
            components: status.components,
            ear: status.ear,
        }
    }
}

/// An earbud source and the source of the peripherals may merge in either order:
/// the snapshot that results is the same.
pub proof fn lemma_owners_commute(
    status: StatusView,
    update: EarbudUpdateView,
    devices: Seq<GenericDeviceView>,
)
    ensures
        status.with_earbuds(update).with_devices(devices) == status.with_devices(
            devices,
        ).with_earbuds(update),
        status.without_earbuds().with_devices(devices) == status.with_devices(
            devices,
        ).without_earbuds(),
{
}

/// The buds and the source of the peripherals may merge in either order too.
pub proof fn lemma_buds_commute(
    status: StatusView,
    components: Components,
    ear: InEar,
    devices: Seq<GenericDeviceView>,
)
    ensures
        status.with_buds(components, ear).with_devices(devices) == status.with_devices(
            devices,
        ).with_buds(components, ear),
        status.without_unclaimed_buds().with_devices(devices) == status.with_devices(
            devices,
        ).without_unclaimed_buds(),
{
}

/// What a source contributed survives every merge of the other owner.
pub proof fn lemma_no_clobber(
    status: StatusView,
    update: EarbudUpdateView,
    components: Components,
    ear: InEar,
    devices: Seq<GenericDeviceView>,
)
    ensures
        status.with_earbuds(update).devices == status.devices,
        status.with_buds(components, ear).devices == status.devices,
        status.without_earbuds().devices == status.devices,
        status.without_unclaimed_buds().devices == status.devices,
        status.with_devices(devices).earbuds() == status.earbuds(),
{
}

} // verus!
