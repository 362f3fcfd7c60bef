use plants::status::{
    BatteryStatus, ComponentStatus, Components, EarStatus, GenericDeviceStatus, InEar, Metadata,
    Status,
};
use plants::store::{EarbudUpdate, StatusStore};

fn part(level: u8, status: BatteryStatus) -> Option<ComponentStatus> {
    Some(ComponentStatus { level, status })
}

fn keyboard() -> GenericDeviceStatus {
    GenericDeviceStatus {
        name: String::from("keyboard"),
        battery: 80,
        text: Some(String::from("K")),
        status: BatteryStatus::Discharging,
    }
}

fn live_status() -> Status {
    Status {
        metadata: Some(Metadata { name: String::from("Buddy"), model: String::from("A2") }),
        components: Components {
            left: part(40, BatteryStatus::Discharging),
            right: part(60, BatteryStatus::Discharging),
            case: part(90, BatteryStatus::Discharging),
        },
        ear: InEar { left: EarStatus::InEar, right: EarStatus::InCase },
        devices: vec![keyboard()],
    }
}

#[test]
fn default_status_is_empty() {
    let status = Status::default();
    assert!(status.metadata.is_none());
    assert_eq!(status.components.left, None);
    assert_eq!(status.components.right, None);
    assert_eq!(status.components.case, None);
    assert_eq!(status.ear, InEar { left: EarStatus::Disconnected, right: EarStatus::Disconnected });
    assert!(status.devices.is_empty());
    assert!(!status.is_valid());
    assert_eq!(status.min_pods(), u8::MAX);
    assert_eq!(EarStatus::default(), EarStatus::Disconnected);
    assert_eq!(InEar::default().left, EarStatus::Disconnected);
    assert_eq!(Components::default().case, None);
}

#[test]
fn status_is_valid_with_any_part_or_device() {
    let mut status = Status::default();
    status.components.case = part(10, BatteryStatus::Charging);
    assert!(status.is_valid());
    let mut status = Status::default();
    status.components.left = part(10, BatteryStatus::Disconnected);
    assert!(status.is_valid());
    let mut status = Status::default();
    status.components.right = part(10, BatteryStatus::Discharging);
    assert!(status.is_valid());
    let mut status = Status::default();
    status.devices.push(keyboard());
    assert!(status.is_valid());
    let mut status = Status::default();
    status.metadata = Some(Metadata { name: String::from("n"), model: String::from("m") });
    status.ear.left = EarStatus::InEar;
    assert!(!status.is_valid());
}

#[test]
fn min_pods_counts_discharging_earbuds_only() {
    let mut status = live_status();
    assert_eq!(status.min_pods(), 40);
    status.components.left = part(70, BatteryStatus::Discharging);
    assert_eq!(status.min_pods(), 60);
    status.components.right = part(5, BatteryStatus::Charging);
    assert_eq!(status.min_pods(), 70);
    status.components.left = part(1, BatteryStatus::Disconnected);
    assert_eq!(status.min_pods(), u8::MAX);
    status.components.case = part(3, BatteryStatus::Discharging);
    assert_eq!(status.min_pods(), u8::MAX);
    status.components.left = None;
    status.components.right = part(12, BatteryStatus::Discharging);
    assert_eq!(status.min_pods(), 12);
}

#[test]
fn icons_of_the_wearing_states() {
    assert_eq!(EarStatus::InEar.icon(), "\u{f184f}");
    assert_eq!(EarStatus::NotInEar.icon(), "\u{f1852}");
    assert_eq!(EarStatus::InCase.icon(), "\u{f1851}");
    assert_eq!(EarStatus::Disconnected.icon(), "");
}

#[test]
fn components_by_mutable_reference() {
    let mut components = Components {
        left: part(1, BatteryStatus::Charging),
        right: None,
        case: part(3, BatteryStatus::Discharging),
    };
    {
        let parts = components.as_arr_mut();
        assert_eq!(*parts[0], part(1, BatteryStatus::Charging));
        assert_eq!(*parts[1], None);
        assert_eq!(*parts[2], part(3, BatteryStatus::Discharging));
        let [left, right, case] = parts;
        *left = None;
        *right = part(2, BatteryStatus::Disconnected);
        *case = part(4, BatteryStatus::Charging);
    }
    assert_eq!(components.left, None);
    assert_eq!(components.right, part(2, BatteryStatus::Disconnected));
    assert_eq!(components.case, part(4, BatteryStatus::Charging));
}

#[test]
fn clone_keeps_every_field() {
    let status = live_status();
    let copy = status.clone();
    assert_eq!(copy.metadata.as_ref().unwrap().name, "Buddy");
    assert_eq!(copy.metadata.as_ref().unwrap().model, "A2");
    assert_eq!(copy.components.left, status.components.left);
    assert_eq!(copy.components.right, status.components.right);
    assert_eq!(copy.components.case, status.components.case);
    assert_eq!(copy.ear, status.ear);
    assert_eq!(copy.devices.len(), 1);
    assert_eq!(copy.devices[0].name, "keyboard");
    assert_eq!(copy.devices[0].battery, 80);
    assert_eq!(copy.devices[0].text.as_deref(), Some("K"));
    assert_eq!(copy.devices[0].status, BatteryStatus::Discharging);
}

#[test]
fn hash_is_the_same_for_the_same_content() {
    assert_eq!(live_status().hash(), live_status().hash());
    assert_eq!(live_status().hash(), live_status().clone().hash());
    assert_eq!(Status::default().hash(), Status::default().hash());
}

#[test]
fn hash_tells_contents_apart() {
    let base = live_status().hash();
    assert_ne!(Status::default().hash(), base);
    let mut status = live_status();
    status.components.left = part(41, BatteryStatus::Discharging);
    assert_ne!(status.hash(), base);
    let mut status = live_status();
    status.components.left = part(40, BatteryStatus::Charging);
    assert_ne!(status.hash(), base);
    let mut status = live_status();
    status.components.case = None;
    assert_ne!(status.hash(), base);
    let mut status = live_status();
    status.ear.right = EarStatus::NotInEar;
    assert_ne!(status.hash(), base);
    let mut status = live_status();
    status.metadata = None;
    assert_ne!(status.hash(), base);
    let mut status = live_status();
    status.metadata = Some(Metadata { name: String::from("BuddyA"), model: String::from("2") });
    assert_ne!(status.hash(), base);
    let mut status = live_status();
    status.devices[0].battery = 79;
    assert_ne!(status.hash(), base);
    let mut status = live_status();
    status.devices[0].text = None;
    assert_ne!(status.hash(), base);
    let mut status = live_status();
    status.devices[0].text = Some(String::new());
    assert_ne!(status.hash(), base);
    let mut status = live_status();
    status.devices.push(keyboard());
    assert_ne!(status.hash(), base);
    let mut status = live_status();
    status.devices.clear();
    assert_ne!(status.hash(), base);
}

#[test]
fn new_store_is_empty() {
    let store = StatusStore::new();
    let status = store.snapshot();
    assert!(status.metadata.is_none());
    assert!(!status.is_valid());
    assert_eq!(status.hash(), Status::default().hash());
}

#[test]
fn earbud_merge_keeps_the_devices() {
    let mut store = StatusStore::new();
    let merged = store.replace_devices(vec![keyboard()]);
    assert_eq!(merged.devices.len(), 1);
    let merged = store.merge_earbuds(EarbudUpdate::of(&live_status()));
    assert_eq!(merged.hash(), live_status().hash());
    assert_eq!(store.snapshot().hash(), live_status().hash());
}

#[test]
fn device_merge_keeps_the_earbuds() {
    let mut store = StatusStore::new();
    store.merge_earbuds(EarbudUpdate::of(&live_status()));
    let merged = store.replace_devices(Vec::new());
    assert!(merged.devices.is_empty());
    assert_eq!(merged.metadata.as_ref().unwrap().name, "Buddy");
    assert_eq!(merged.components.left, part(40, BatteryStatus::Discharging));
    assert_eq!(merged.ear.right, EarStatus::InCase);
    let merged = store.replace_devices(vec![keyboard(), keyboard()]);
    assert_eq!(merged.devices.len(), 2);
    assert_eq!(merged.components.case, part(90, BatteryStatus::Discharging));
}

#[test]
fn merges_of_different_owners_commute() {
    let mut first = StatusStore::new();
    first.merge_earbuds(EarbudUpdate::of(&live_status()));
    first.replace_devices(vec![keyboard()]);
    let mut second = StatusStore::new();
    second.replace_devices(vec![keyboard()]);
    second.merge_earbuds(EarbudUpdate::of(&live_status()));
    assert_eq!(first.snapshot().hash(), second.snapshot().hash());
}

#[test]
fn disconnect_clears_the_earbuds_and_keeps_the_devices() {
    let mut store = StatusStore::new();
    store.replace_devices(vec![keyboard()]);
    store.merge_earbuds(EarbudUpdate::of(&live_status()));
    let published = store.clear_earbuds();
    assert_eq!(published.components.left, None);
    assert_eq!(published.components.right, None);
    assert_eq!(published.components.case, None);
    assert_eq!(published.ear.left, EarStatus::Disconnected);
    assert_eq!(published.ear.right, EarStatus::Disconnected);
    assert!(published.metadata.is_none());
    assert_eq!(published.devices.len(), 1);
    assert_eq!(published.devices[0].name, "keyboard");
    assert_eq!(published.devices[0].battery, 80);
    assert_eq!(published.devices[0].text.as_deref(), Some("K"));
    assert_eq!(published.devices[0].status, BatteryStatus::Discharging);
}

#[test]
fn buds_merge_keeps_metadata_and_devices() {
    let mut store = StatusStore::new();
    store.merge_earbuds(EarbudUpdate::of(&live_status()));
    store.replace_devices(vec![keyboard()]);
    let merged = store.merge_buds(
        Components { left: part(7, BatteryStatus::Charging), right: None, case: None },
        InEar { left: EarStatus::InCase, right: EarStatus::Disconnected },
    );
    assert_eq!(merged.metadata.as_ref().unwrap().model, "A2");
    assert_eq!(merged.components.left, part(7, BatteryStatus::Charging));
    assert_eq!(merged.components.right, None);
    assert_eq!(merged.ear.left, EarStatus::InCase);
    assert_eq!(merged.devices.len(), 1);
}

#[test]
fn buds_are_cleared_only_without_metadata() {
    let mut store = StatusStore::new();
    store.merge_earbuds(EarbudUpdate::of(&live_status()));
    let kept = store.clear_unclaimed_buds();
    assert_eq!(kept.components.left, part(40, BatteryStatus::Discharging));
    assert_eq!(kept.ear.left, EarStatus::InEar);

    let mut store = StatusStore::new();
    store.replace_devices(vec![keyboard()]);
    store.merge_buds(
        Components { left: part(7, BatteryStatus::Charging), right: None, case: None },
        InEar { left: EarStatus::InCase, right: EarStatus::Disconnected },
    );
    let cleared = store.clear_unclaimed_buds();
    assert_eq!(cleared.components.left, None);
    assert_eq!(cleared.ear.left, EarStatus::Disconnected);
    assert_eq!(cleared.devices.len(), 1);
}
