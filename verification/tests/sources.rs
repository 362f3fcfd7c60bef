use plants::airpods::{
    classify, connect_backoff_millis, got_packet, offers_airpods_service, Action, Command,
    Frame, FrameBuffer, LocalState, Phase, Read, Session,
};
use plants::airpods_consts::{
    AIRPODS_SERVICE, BATTERY_STATUS, EAR_DETECTION, FEATURES_ACK, HANDSHAKE, HANDSHAKE_ACK,
    METADATA, REQUEST_NOTIFICATIONS, SET_SPECIFIC_FEATURES,
};
use plants::bluetooth::{
    battery_object_path, device_entry, probe_target, rebuild_devices, Debounce, Observation,
    Trigger,
};
use plants::config::{BudsConfig, Config, DeviceConfig};
use plants::packets::battery::Pod;
use plants::pbp::{buds_target, supervise, Round, Supervision};
use plants::pbp_client::{
    accepts_request, after_connect_failure, runtime_info_to_status, session_outcome,
    BatteryInfo, DeviceBattery, Finished, Outcome, Placement, Retry, RuntimeInfo,
};
use plants::status::{BatteryStatus, ComponentStatus, EarStatus};
use plants::store::StatusStore;

fn battery_frame(entries: &[[u8; 5]]) -> Vec<u8> {
    let mut raw = BATTERY_STATUS.to_vec();
    raw.push(entries.len() as u8);
    for entry in entries {
        raw.extend_from_slice(entry);
    }
    raw
}

fn in_ear_frame(primary: u8, secondary: u8) -> Vec<u8> {
    let mut raw = EAR_DETECTION.to_vec();
    raw.push(primary);
    raw.push(secondary);
    raw
}

fn part(level: u8, status: BatteryStatus) -> Option<ComponentStatus> {
    Some(ComponentStatus { level, status })
}

#[test]
fn frames_are_classified_by_their_marker() {
    assert!(matches!(classify(&battery_frame(&[])), Frame::Battery(_)));
    assert!(matches!(classify(&in_ear_frame(0, 0)), Frame::InEar(_)));
    assert!(matches!(classify(&METADATA), Frame::Metadata(_)));
    assert!(matches!(classify(&HANDSHAKE), Frame::Unrecognized));
    assert!(matches!(classify(&[]), Frame::Unrecognized));
}

#[test]
fn primary_earbud_is_sticky() {
    let mut state = LocalState::default();
    assert_eq!(state.primary, Pod::Neither);
    got_packet(&mut state, &battery_frame(&[[0x04, 0x01, 50, 0x02, 0x01]]));
    assert_eq!(state.primary, Pod::Left);
    got_packet(&mut state, &battery_frame(&[[0x02, 0x01, 70, 0x02, 0x01]]));
    assert_eq!(state.primary, Pod::Left);
    assert_eq!(state.status.components.left, part(50, BatteryStatus::Discharging));
    assert_eq!(state.status.components.right, part(70, BatteryStatus::Discharging));
    got_packet(&mut state, &in_ear_frame(0x00, 0x02));
    assert_eq!(state.status.ear.left, EarStatus::InEar);
    assert_eq!(state.status.ear.right, EarStatus::InCase);
}

#[test]
fn primary_earbud_stays_when_it_disconnects() {
    let mut state = LocalState::default();
    got_packet(&mut state, &battery_frame(&[[0x02, 0x01, 50, 0x02, 0x01]]));
    assert_eq!(state.primary, Pod::Right);
    got_packet(
        &mut state,
        &battery_frame(&[[0x02, 0x01, 0, 0x04, 0x01], [0x04, 0x01, 30, 0x02, 0x01]]),
    );
    assert_eq!(state.primary, Pod::Right);
    got_packet(&mut state, &battery_frame(&[[0x08, 0x01, 30, 0x02, 0x01]]));
    assert_eq!(state.primary, Pod::Right);
    got_packet(&mut state, &in_ear_frame(0x01, 0x00));
    assert_eq!(state.status.ear.right, EarStatus::NotInEar);
    assert_eq!(state.status.ear.left, EarStatus::InEar);
}

#[test]
fn in_ear_frame_without_primary_earbud_is_dropped() {
    let mut state = LocalState::default();
    got_packet(&mut state, &in_ear_frame(0x00, 0x00));
    assert_eq!(state.status.ear.left, EarStatus::Disconnected);
    assert_eq!(state.status.ear.right, EarStatus::Disconnected);
    got_packet(&mut state, &battery_frame(&[[0x08, 0x01, 30, 0x02, 0x01]]));
    assert_eq!(state.primary, Pod::Neither);
    got_packet(&mut state, &in_ear_frame(0x00, 0x00));
    assert_eq!(state.status.ear.left, EarStatus::Disconnected);
}

#[test]
fn battery_frame_keeps_parts_that_it_does_not_report() {
    let mut state = LocalState::default();
    got_packet(
        &mut state,
        &battery_frame(&[[0x04, 0x01, 50, 0x02, 0x01], [0x08, 0x01, 90, 0x01, 0x01]]),
    );
    got_packet(&mut state, &battery_frame(&[[0x02, 0x01, 70, 0x02, 0x01]]));
    assert_eq!(state.status.components.left, part(50, BatteryStatus::Discharging));
    assert_eq!(state.status.components.right, part(70, BatteryStatus::Discharging));
    assert_eq!(state.status.components.case, part(90, BatteryStatus::Charging));
}

#[test]
fn metadata_frame_sets_name_and_model() {
    let mut state = LocalState::default();
    let mut raw = METADATA.to_vec();
    raw.extend_from_slice(b"Buddy\0A2\0Acme\0");
    got_packet(&mut state, &raw);
    let metadata = state.status.metadata.as_ref().unwrap();
    assert_eq!(metadata.name, "Buddy");
    assert_eq!(metadata.model, "A2");
    assert_eq!(state.primary, Pod::Neither);
}

#[test]
fn unrecognized_frame_changes_nothing() {
    let mut state = LocalState::default();
    got_packet(&mut state, &battery_frame(&[[0x04, 0x01, 50, 0x02, 0x01]]));
    let before = state.status.hash();
    got_packet(&mut state, &[0x04, 0x00, 0x04, 0x00, 0x99, 0x00, 1, 2, 3]);
    got_packet(&mut state, &[]);
    let mut long = battery_frame(&[[0x04, 0x01, 10, 0x02, 0x01]]);
    long.push(0);
    got_packet(&mut state, &long);
    assert_eq!(state.status.hash(), before);
    assert_eq!(state.primary, Pod::Left);
}

#[test]
fn session_walks_through_the_handshake() {
    let (mut session, first) = Session::open();
    assert_eq!(first, Command::Handshake);
    assert_eq!(first.bytes(), HANDSHAKE.to_vec());
    assert_eq!(session.phase, Phase::AwaitingHandshakeAck);
    let mut ack = HANDSHAKE_ACK.to_vec();
    ack.extend_from_slice(&[0, 0, 0]);
    match session.on_frame(&ack) {
        Action::Send(command) => {
            assert_eq!(command, Command::SetSpecificFeatures);
            assert_eq!(command.bytes(), SET_SPECIFIC_FEATURES.to_vec());
        },
        other => panic!("{:?}", other),
    }
    assert_eq!(session.phase, Phase::AwaitingFeaturesAck);
    match session.on_frame(&FEATURES_ACK) {
        Action::Send(command) => {
            assert_eq!(command, Command::RequestNotifications);
            assert_eq!(command.bytes(), REQUEST_NOTIFICATIONS.to_vec());
        },
        other => panic!("{:?}", other),
    }
    assert_eq!(session.phase, Phase::Streaming);
    assert!(matches!(session.on_frame(&battery_frame(&[[0x04, 0x01, 50, 0x02, 0x01]])), Action::Merge(_)));
    assert_eq!(session.phase, Phase::Streaming);
    session.on_closed();
    assert_eq!(session.phase, Phase::Closed);
    assert!(matches!(session.on_frame(&battery_frame(&[[0x04, 0x01, 51, 0x02, 0x01]])), Action::Nothing));
    assert!(matches!(session.on_frame(&HANDSHAKE_ACK), Action::Nothing));
    assert_eq!(session.local.status.components.left, part(50, BatteryStatus::Discharging));
}

#[test]
fn repeated_frame_is_announced_once() {
    let (mut session, _) = Session::open();
    let frame = battery_frame(&[[0x04, 0x01, 50, 0x02, 0x01]]);
    match session.on_frame(&frame) {
        Action::Merge(update) => {
            assert_eq!(update.components.left, part(50, BatteryStatus::Discharging));
            assert_eq!(update.components.right, None);
            assert!(update.metadata.is_none());
        },
        other => panic!("{:?}", other),
    }
    assert!(matches!(session.on_frame(&frame), Action::Nothing));
    assert!(matches!(session.on_frame(&frame), Action::Nothing));
    let changed = battery_frame(&[[0x04, 0x01, 49, 0x02, 0x01]]);
    assert!(matches!(session.on_frame(&changed), Action::Merge(_)));
    assert!(matches!(session.on_frame(&frame), Action::Merge(_)));
}

#[test]
fn frame_that_changes_nothing_is_not_announced() {
    let (mut session, _) = Session::open();
    assert!(matches!(session.on_frame(&in_ear_frame(0, 0)), Action::Nothing));
    assert!(matches!(session.on_frame(&battery_frame(&[])), Action::Nothing));
    assert!(matches!(session.on_frame(&[1, 2, 3]), Action::Nothing));
}

#[test]
fn disconnect_of_a_live_session() {
    let mut store = StatusStore::new();
    store.replace_devices(
        rebuild_devices(&two_devices(), &vec![connected(80), Observation::Unreachable]),
    );
    let (mut session, _) = Session::open();
    let frame = battery_frame(
        &[
            [0x04, 0x01, 40, 0x02, 0x01],
            [0x02, 0x01, 60, 0x02, 0x01],
            [0x08, 0x01, 90, 0x02, 0x01],
        ],
    );
    let published = match session.on_frame(&frame) {
        Action::Merge(update) => store.merge_earbuds(update),
        other => panic!("{:?}", other),
    };
    assert_eq!(published.components.left, part(40, BatteryStatus::Discharging));
    assert_eq!(published.components.right, part(60, BatteryStatus::Discharging));
    assert_eq!(published.components.case, part(90, BatteryStatus::Discharging));
    assert_eq!(published.devices.len(), 1);

    let mut buffer = FrameBuffer::new();
    assert!(matches!(buffer.push_chunk(&[]), Read::Closed));
    session.on_closed();
    let published = store.clear_earbuds();
    assert_eq!(published.components.left, None);
    assert_eq!(published.components.right, None);
    assert_eq!(published.components.case, None);
    assert_eq!(published.ear.left, EarStatus::Disconnected);
    assert_eq!(published.ear.right, EarStatus::Disconnected);
    assert_eq!(published.devices.len(), 1);
    assert_eq!(published.devices[0].name, "keyboard");
    assert_eq!(published.devices[0].battery, 80);
}

#[test]
fn frame_buffer_gathers_chunks_until_a_short_one() {
    let mut buffer = FrameBuffer::new();
    let full = vec![7u8; 1024];
    assert!(matches!(buffer.push_chunk(&full), Read::Partial));
    assert!(matches!(buffer.push_chunk(&full), Read::Partial));
    match buffer.push_chunk(&[1, 2, 3]) {
        Read::Frame(frame) => {
            assert_eq!(frame.len(), 2051);
            assert_eq!(&frame[..1024], &full[..]);
            assert_eq!(&frame[2048..], &[1, 2, 3]);
        },
        other => panic!("{:?}", other),
    }
    assert!(buffer.data.is_empty());
    match buffer.push_chunk(&[9]) {
        Read::Frame(frame) => assert_eq!(frame, vec![9]),
        other => panic!("{:?}", other),
    }
    let short = vec![1u8; 1023];
    match buffer.push_chunk(&short) {
        Read::Frame(frame) => assert_eq!(frame, short),
        other => panic!("{:?}", other),
    }
    assert!(matches!(buffer.push_chunk(&full), Read::Partial));
    assert!(matches!(buffer.push_chunk(&[]), Read::Closed));
    assert!(buffer.data.is_empty());
}

#[test]
fn earbuds_are_known_by_their_service() {
    assert!(offers_airpods_service(&[1, AIRPODS_SERVICE, 3]));
    assert!(offers_airpods_service(&[AIRPODS_SERVICE]));
    assert!(!offers_airpods_service(&[1, 2, 3]));
    assert!(!offers_airpods_service(&[]));
    assert_eq!(AIRPODS_SERVICE, 0x74ec2172_0bad_4d01_8f77_997b2be0722a);
}

#[test]
fn backoff_after_a_failed_connect() {
    assert_eq!(connect_backoff_millis(true), 500);
    assert_eq!(connect_backoff_millis(false), 100);
}

fn device(mac: &str, kind: &str, text: Option<&str>) -> DeviceConfig {
    DeviceConfig {
        mac: String::from(mac),
        text: text.map(String::from),
        device_type: String::from(kind),
    }
}

fn two_devices() -> Config {
    Config {
        devices: vec![
            (String::from("keyboard"), device("AA:BB:CC:DD:EE:0F", "bluetooth", Some("K"))),
            (String::from("mouse"), device("00:11:22:33:44:55", "bluetooth", None)),
        ],
        buds: None,
    }
}

fn connected(battery: u8) -> Observation {
    Observation::Connected { battery: Some(battery) }
}

#[test]
fn rebuild_lists_the_connected_device_only() {
    let devices = rebuild_devices(&two_devices(), &vec![connected(80), Observation::Unreachable]);
    assert_eq!(devices.len(), 1);
    assert_eq!(devices[0].name, "keyboard");
    assert_eq!(devices[0].battery, 80);
    assert_eq!(devices[0].text.as_deref(), Some("K"));
    assert_eq!(devices[0].status, BatteryStatus::Discharging);
}

#[test]
fn rebuild_keeps_the_order_of_the_configuration() {
    let devices = rebuild_devices(&two_devices(), &vec![connected(80), connected(5)]);
    assert_eq!(devices.len(), 2);
    assert_eq!(devices[0].name, "keyboard");
    assert_eq!(devices[1].name, "mouse");
    assert_eq!(devices[1].battery, 5);
    assert_eq!(devices[1].text, None);
    assert_eq!(devices[1].status, BatteryStatus::Discharging);
}

#[test]
fn rebuild_omits_what_cannot_be_read() {
    let config = two_devices();
    assert!(rebuild_devices(&config, &vec![Observation::Connected { battery: None }, Observation::NotProbed]).is_empty());
    assert!(rebuild_devices(&config, &Vec::new()).is_empty());
    let devices = rebuild_devices(&config, &vec![connected(1)]);
    assert_eq!(devices.len(), 1);
    assert_eq!(devices[0].name, "keyboard");
    assert!(rebuild_devices(&Config::empty(), &vec![connected(1)]).is_empty());
}

#[test]
fn rebuild_omits_other_kinds_and_unreadable_addresses() {
    let config = Config {
        devices: vec![
            (String::from("usb"), device("AA:BB:CC:DD:EE:0F", "usb", None)),
            (String::from("broken"), device("not an address", "bluetooth", None)),
            (String::from("short"), device("AA:BB:CC", "bluetooth", None)),
            (String::from("fine"), device("aa:bb:cc:dd:ee:ff", "bluetooth", None)),
        ],
        buds: None,
    };
    let all = vec![connected(9), connected(8), connected(7), connected(6)];
    let devices = rebuild_devices(&config, &all);
    assert_eq!(devices.len(), 1);
    assert_eq!(devices[0].name, "fine");
    assert_eq!(devices[0].battery, 6);
}

#[test]
fn probe_target_reads_the_address() {
    assert_eq!(
        probe_target(&device("AA:BB:CC:DD:EE:0F", "bluetooth", None)),
        Some([0xaa, 0xbb, 0xcc, 0xdd, 0xee, 0x0f])
    );
    assert_eq!(
        probe_target(&device("00:11:22:33:44:55", "bluetooth", None)),
        Some([0x00, 0x11, 0x22, 0x33, 0x44, 0x55])
    );
    assert_eq!(probe_target(&device("AA:BB:CC:DD:EE:0F", "usb", None)), None);
    assert_eq!(probe_target(&device("AA:BB:CC:DD:EE:0F", "Bluetooth", None)), None);
    assert_eq!(probe_target(&device("AA:BB:CC:DD:EE", "bluetooth", None)), None);
    assert_eq!(probe_target(&device("AA:BB:CC:DD:EE:GG", "bluetooth", None)), None);
    assert_eq!(probe_target(&device("", "bluetooth", None)), None);
}

#[test]
fn device_entry_needs_kind_address_connection_and_battery() {
    let name = String::from("keyboard");
    let config = device("AA:BB:CC:DD:EE:0F", "bluetooth", Some("K"));
    let address = Some([0xaa, 0xbb, 0xcc, 0xdd, 0xee, 0x0f]);
    let entry = device_entry(&name, &config, address, connected(80)).unwrap();
    assert_eq!(entry.name, "keyboard");
    assert_eq!(entry.battery, 80);
    assert_eq!(entry.text.as_deref(), Some("K"));
    assert_eq!(entry.status, BatteryStatus::Discharging);
    assert!(device_entry(&name, &config, None, connected(80)).is_none());
    assert!(device_entry(&name, &config, address, Observation::Unreachable).is_none());
    assert!(device_entry(&name, &config, address, Observation::NotProbed).is_none());
    assert!(device_entry(&name, &config, address, Observation::Connected { battery: None }).is_none());
    let other = device("AA:BB:CC:DD:EE:0F", "usb", Some("K"));
    assert!(device_entry(&name, &other, address, connected(80)).is_none());
}

#[test]
fn configuration_helpers() {
    assert!(!Config::empty().has_devices());
    assert!(Config::empty().buds.is_none());
    assert!(two_devices().has_devices());
    assert!(two_devices().names_are_distinct());
    assert!(Config::empty().names_are_distinct());
    let mut twice = two_devices();
    twice.devices.push((String::from("keyboard"), device("00:00:00:00:00:00", "bluetooth", None)));
    assert!(!twice.names_are_distinct());
    assert!(device("x", "bluetooth", None).is_bluetooth());
    assert!(!device("x", "bluetooth ", None).is_bluetooth());
    assert!(!device("x", "", None).is_bluetooth());
}

#[test]
fn object_path_of_a_device() {
    assert_eq!(
        battery_object_path("hci0", &[0xaa, 0xbb, 0xcc, 0xdd, 0xee, 0x0f]),
        "/org/bluez/hci0/dev_AA_BB_CC_DD_EE_0F"
    );
    assert_eq!(
        battery_object_path("hci1", &[0x00, 0x01, 0x9a, 0xa9, 0x10, 0xff]),
        "/org/bluez/hci1/dev_00_01_9A_A9_10_FF"
    );
    assert_eq!(battery_object_path("", &[0; 6]), "/org/bluez//dev_00_00_00_00_00_00");
}

#[test]
fn adapter_events_are_debounced() {
    let second: u128 = 1_000_000_000;
    let mut debounce = Debounce::new(second);
    assert!(!debounce.on_trigger(Trigger::AdapterEvent, second + 500_000_000));
    assert_eq!(debounce.last, second);
    assert!(debounce.on_trigger(Trigger::AdapterEvent, second + 500_000_001));
    assert_eq!(debounce.last, second + 500_000_001);
    assert!(!debounce.on_trigger(Trigger::AdapterEvent, second + 600_000_000));
    assert!(!debounce.on_trigger(Trigger::AdapterEvent, second));
    assert!(debounce.on_trigger(Trigger::Poll, second + 600_000_000));
    assert_eq!(debounce.last, second + 500_000_001);
    assert!(debounce.on_trigger(Trigger::AdapterEvent, 3 * second));
    assert_eq!(debounce.last, 3 * second);
}

fn battery(level: i32, state: i32) -> Option<DeviceBattery> {
    Some(DeviceBattery { level, state })
}

#[test]
fn runtime_message_is_read_into_a_snapshot() {
    let info = RuntimeInfo {
        battery_info: Some(BatteryInfo { case: battery(90, 2), left: battery(40, 1), right: battery(60, 0) }),
        placement: Some(Placement { left_bud_in_case: true, right_bud_in_case: false }),
    };
    let status = runtime_info_to_status(info);
    assert!(status.metadata.is_none());
    assert!(status.devices.is_empty());
    assert_eq!(status.components.case, part(90, BatteryStatus::Charging));
    assert_eq!(status.components.left, part(40, BatteryStatus::Discharging));
    assert_eq!(status.components.right, part(60, BatteryStatus::Discharging));
    assert_eq!(status.ear.left, EarStatus::InCase);
    assert_eq!(status.ear.right, EarStatus::InEar);
}

#[test]
fn runtime_message_without_parts() {
    let status = runtime_info_to_status(RuntimeInfo { battery_info: None, placement: None });
    assert!(!status.is_valid());
    assert_eq!(status.ear.left, EarStatus::Disconnected);
    let status = runtime_info_to_status(
        RuntimeInfo {
            battery_info: None,
            placement: Some(Placement { left_bud_in_case: true, right_bud_in_case: true }),
        },
    );
    assert!(!status.is_valid());
    assert_eq!(status.ear.left, EarStatus::Disconnected);
    assert_eq!(status.ear.right, EarStatus::Disconnected);
    let status = runtime_info_to_status(
        RuntimeInfo {
            battery_info: Some(BatteryInfo { case: None, left: None, right: battery(10, 2) }),
            placement: Some(Placement { left_bud_in_case: true, right_bud_in_case: true }),
        },
    );
    assert_eq!(status.components.left, None);
    assert_eq!(status.components.case, None);
    assert_eq!(status.components.right, part(10, BatteryStatus::Charging));
    assert_eq!(status.ear.left, EarStatus::Disconnected);
    assert_eq!(status.ear.right, EarStatus::InCase);
    let status = runtime_info_to_status(
        RuntimeInfo {
            battery_info: Some(BatteryInfo { case: None, left: battery(10, 2), right: None }),
            placement: None,
        },
    );
    assert_eq!(status.components.left, part(10, BatteryStatus::Charging));
    assert_eq!(status.ear.left, EarStatus::Disconnected);
}

#[test]
fn runtime_level_that_fits_no_byte_is_zero() {
    let info = RuntimeInfo {
        battery_info: Some(BatteryInfo { case: battery(256, 2), left: battery(-1, 3), right: battery(255, 2) }),
        placement: None,
    };
    let status = runtime_info_to_status(info);
    assert_eq!(status.components.case, part(0, BatteryStatus::Charging));
    assert_eq!(status.components.left, part(0, BatteryStatus::Discharging));
    assert_eq!(status.components.right, part(255, BatteryStatus::Charging));
}

#[test]
fn profile_connect_is_tried_again_three_times() {
    assert_eq!(after_connect_failure(0), Retry::After(1000));
    assert_eq!(after_connect_failure(1), Retry::After(1000));
    assert_eq!(after_connect_failure(2), Retry::After(1000));
    assert_eq!(after_connect_failure(3), Retry::GiveUp);
    assert_eq!(after_connect_failure(u32::MAX), Retry::GiveUp);
}

#[test]
fn only_the_buds_may_open_the_stream() {
    let target = [1, 2, 3, 4, 5, 6];
    assert!(accepts_request(&[1, 2, 3, 4, 5, 6], &target));
    assert!(!accepts_request(&[1, 2, 3, 4, 5, 7], &target));
    assert!(!accepts_request(&[0, 2, 3, 4, 5, 6], &target));
}

#[test]
fn session_ends_with_the_half_that_ends_first() {
    assert_eq!(session_outcome(Finished::Client { failed: true }), Outcome::Failed);
    assert_eq!(session_outcome(Finished::Client { failed: false }), Outcome::ClientTerminated);
    assert_eq!(session_outcome(Finished::Subscription { failed: true }), Outcome::Failed);
    assert_eq!(session_outcome(Finished::Subscription { failed: false }), Outcome::Ended);
    assert_eq!(session_outcome(Finished::Consumer), Outcome::Ended);
}

#[test]
fn supervision_of_the_buds() {
    let round = |configured, has_session, connected| Round { configured, has_session, connected };
    assert_eq!(supervise(round(false, false, false)), Supervision::Idle);
    assert_eq!(supervise(round(false, true, true)), Supervision::Idle);
    assert_eq!(supervise(round(true, false, false)), Supervision::Clear { open_session: true });
    assert_eq!(supervise(round(true, false, true)), Supervision::Clear { open_session: true });
    assert_eq!(supervise(round(true, true, false)), Supervision::Clear { open_session: false });
    assert_eq!(supervise(round(true, true, true)), Supervision::Stream);
}

#[test]
fn buds_are_configured_by_their_address() {
    let mut config = Config::empty();
    assert_eq!(buds_target(&config), None);
    config.buds = Some(BudsConfig { mac: String::from("12:34:56:78:9A:BC") });
    assert_eq!(buds_target(&config), Some([0x12, 0x34, 0x56, 0x78, 0x9a, 0xbc]));
    config.buds = Some(BudsConfig { mac: String::from("12:34:56:78:9A") });
    assert_eq!(buds_target(&config), None);
    config.buds = Some(BudsConfig { mac: String::from("12-34-56-78-9A-BC") });
    assert_eq!(buds_target(&config), None);
}
