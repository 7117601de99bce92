use aranet4::codec::decode;
use aranet4::domain::{Device, ScanError};
use aranet4::ids::{ARANET4_CHARACTERISTIC, ARANET4_SERVICE};
use aranet4::scan::{assemble_device, contains_service, find_data_characteristic, ScanState};

fn sample_payload() -> Vec<u8> {
    vec![0xD2, 0x02, 0x58, 0x02, 0x50, 0x03, 0x28, 0x64, 0x01, 0x3C, 0x00, 0x05, 0x00]
}

fn sample_device(name: &str) -> Device {
    assemble_device(
        Some(name.to_string()),
        [0x11, 0x22, 0x33, 0x44, 0x55, 0x66],
        &sample_payload(),
        &vec![],
    )
    .unwrap()
}

#[test]
fn cap_of_zero_is_done_before_any_event() {
    let state = ScanState::new(Some(0));
    assert!(state.is_done());
    assert_eq!(state.count(), 0);
    assert!(state.into_devices().is_empty());
}

#[test]
fn cap_stops_the_scan_early() {
    // Three matching discovery events arrive well inside the deadline, but
    // the cap admits only two records.
    let cap = 2;
    let mut state = ScanState::new(Some(cap));
    let services = vec![ARANET4_SERVICE];
    let mut events_consumed = 0;
    for i in 0..3 {
        if state.is_done() {
            break;
        }
        events_consumed += 1;
        if state.should_connect(&services) {
            state.add_device(sample_device(&format!("Aranet4 {i}")));
        }
    }
    assert_eq!(events_consumed, cap);
    assert!(state.is_done());
    let devices = state.into_devices();
    assert_eq!(devices.len(), cap);
    assert_eq!(devices[0].name, "Aranet4 0");
    assert_eq!(devices[1].name, "Aranet4 1");
}

#[test]
fn uncapped_scan_takes_every_matching_event() {
    let mut state = ScanState::new(None);
    let services = vec![0x1234, ARANET4_SERVICE];
    for i in 0..5 {
        assert!(!state.is_done());
        assert!(state.should_connect(&services));
        state.add_device(sample_device(&format!("Aranet4 {i}")));
    }
    assert!(!state.is_done());
    assert_eq!(state.count(), 5);
}

#[test]
fn non_matching_device_is_skipped() {
    let mut state = ScanState::new(None);
    let other_services = vec![0x0000fce1_0000_1000_8000_0080_5f9b_34fb_u128, 0x1234];
    assert!(!state.should_connect(&other_services));
    let no_services: Vec<u128> = vec![];
    assert!(!state.should_connect(&no_services));
    state.on_timeout();
    assert!(state.into_devices().is_empty());
}

#[test]
fn matching_device_passes_the_filter() {
    let state = ScanState::new(None);
    assert!(state.should_connect(&vec![ARANET4_SERVICE]));
    // Once done, no further device is connected, whatever it advertises.
    let done = ScanState::new(Some(0));
    assert!(!done.should_connect(&vec![ARANET4_SERVICE]));
}

#[test]
fn timeout_with_no_events_returns_empty_list() {
    let mut state = ScanState::new(Some(5));
    assert!(!state.is_done());
    state.on_timeout();
    assert!(state.is_done());
    assert!(state.into_devices().is_empty());
}

#[test]
fn assembles_device_from_gathered_parts() {
    let device = sample_device("Aranet4 1D8FA");
    assert_eq!(device.name, "Aranet4 1D8FA");
    assert_eq!(device.address, [0x11, 0x22, 0x33, 0x44, 0x55, 0x66]);
    assert_eq!(Ok(device.data), decode(&sample_payload()));
    assert_eq!(device.info.model_number, None);
}

#[test]
fn missing_name_is_a_missing_property_error() {
    let r = assemble_device(None, [0; 6], &sample_payload(), &vec![]);
    assert_eq!(r, Err(ScanError::MissingProperty));
}

#[test]
fn decode_failures_surface_as_scan_errors() {
    let truncated = vec![0x01, 0x02];
    let r = assemble_device(Some("Aranet4".to_string()), [0; 6], &truncated, &vec![]);
    assert_eq!(r, Err(ScanError::TruncatedPayload));

    let mut bad_status = sample_payload();
    bad_status[8] = 9;
    let r = assemble_device(Some("Aranet4".to_string()), [0; 6], &bad_status, &vec![]);
    assert_eq!(r, Err(ScanError::InvalidStatus));
}

#[test]
fn finds_first_data_characteristic() {
    let chars = vec![0x1111, ARANET4_CHARACTERISTIC, ARANET4_CHARACTERISTIC];
    assert_eq!(find_data_characteristic(&chars), Some(1));
    let none = vec![0x1111, 0x2222];
    assert_eq!(find_data_characteristic(&none), None);
    let empty: Vec<u128> = vec![];
    assert_eq!(find_data_characteristic(&empty), None);
}

#[test]
fn service_membership_is_exact() {
    assert!(contains_service(&vec![1, 2, ARANET4_SERVICE], ARANET4_SERVICE));
    assert!(!contains_service(&vec![1, 2], ARANET4_SERVICE));
    assert!(!contains_service(&vec![], ARANET4_SERVICE));
}
