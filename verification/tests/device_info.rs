use aranet4::ids::{
    BLUETOOTH_FIRMWARE_REVISION_CHARACTERISTIC, BLUETOOTH_HARDWARE_REVISION_CHARACTERISTIC,
    BLUETOOTH_MANUFACTURER_NAME_CHARACTERISTIC, BLUETOOTH_MODEL_NUMBER_CHARACTERISTIC,
    BLUETOOTH_SERIAL_NUMBER_CHARACTERISTIC, BLUETOOTH_SOFTWARE_REVISION_CHARACTERISTIC,
    ARANET4_CHARACTERISTIC, ARANET4_SERVICE,
};
use aranet4::info::{assemble_info, is_info_characteristic};
use aranet4::Info;

#[test]
fn two_of_six_fields_populated_others_empty() {
    let reads: Vec<(u128, Vec<u8>)> = vec![
        (BLUETOOTH_MODEL_NUMBER_CHARACTERISTIC, b"Aranet4".to_vec()),
        (BLUETOOTH_MANUFACTURER_NAME_CHARACTERISTIC, b"SAF Tehnika".to_vec()),
    ];
    let info = assemble_info(&reads);
    assert_eq!(info.model_number, Some("Aranet4".to_string()));
    assert_eq!(info.manufacturer_name, Some("SAF Tehnika".to_string()));
    assert_eq!(info.serial_number, None);
    assert_eq!(info.firmware_revision, None);
    assert_eq!(info.hardware_revision, None);
    assert_eq!(info.software_revision, None);
}

#[test]
fn all_six_fields_populated() {
    let reads: Vec<(u128, Vec<u8>)> = vec![
        (BLUETOOTH_MODEL_NUMBER_CHARACTERISTIC, b"Aranet4".to_vec()),
        (BLUETOOTH_SERIAL_NUMBER_CHARACTERISTIC, b"1234".to_vec()),
        (BLUETOOTH_FIRMWARE_REVISION_CHARACTERISTIC, b"v1.2.0".to_vec()),
        (BLUETOOTH_HARDWARE_REVISION_CHARACTERISTIC, b"rev 12".to_vec()),
        (BLUETOOTH_SOFTWARE_REVISION_CHARACTERISTIC, b"v1.2.0".to_vec()),
        (BLUETOOTH_MANUFACTURER_NAME_CHARACTERISTIC, b"SAF Tehnika".to_vec()),
    ];
    let info = assemble_info(&reads);
    assert_eq!(info.model_number, Some("Aranet4".to_string()));
    assert_eq!(info.serial_number, Some("1234".to_string()));
    assert_eq!(info.firmware_revision, Some("v1.2.0".to_string()));
    assert_eq!(info.hardware_revision, Some("rev 12".to_string()));
    assert_eq!(info.software_revision, Some("v1.2.0".to_string()));
    assert_eq!(info.manufacturer_name, Some("SAF Tehnika".to_string()));
}

#[test]
fn no_reads_yield_empty_record() {
    let reads: Vec<(u128, Vec<u8>)> = vec![];
    assert_eq!(assemble_info(&reads), Info::new());
}

#[test]
fn unrecognized_identifier_is_ignored() {
    let reads: Vec<(u128, Vec<u8>)> = vec![
        (0xdead_beef, b"vendor extra".to_vec()),
        (ARANET4_SERVICE, b"not an info field".to_vec()),
    ];
    assert_eq!(assemble_info(&reads), Info::new());
}

#[test]
fn later_read_of_same_identifier_wins() {
    let reads: Vec<(u128, Vec<u8>)> = vec![
        (BLUETOOTH_SERIAL_NUMBER_CHARACTERISTIC, b"first".to_vec()),
        (BLUETOOTH_SERIAL_NUMBER_CHARACTERISTIC, b"second".to_vec()),
    ];
    assert_eq!(assemble_info(&reads).serial_number, Some("second".to_string()));
}

#[test]
fn invalid_utf8_is_decoded_permissively() {
    let reads: Vec<(u128, Vec<u8>)> =
        vec![(BLUETOOTH_MODEL_NUMBER_CHARACTERISTIC, vec![0xFF, b'A', 0xC0])];
    let info = assemble_info(&reads);
    assert_eq!(info.model_number, Some("\u{FFFD}A\u{FFFD}".to_string()));
}

#[test]
fn recognizes_exactly_the_six_info_characteristics() {
    assert!(is_info_characteristic(BLUETOOTH_MODEL_NUMBER_CHARACTERISTIC));
    assert!(is_info_characteristic(BLUETOOTH_SERIAL_NUMBER_CHARACTERISTIC));
    assert!(is_info_characteristic(BLUETOOTH_FIRMWARE_REVISION_CHARACTERISTIC));
    assert!(is_info_characteristic(BLUETOOTH_HARDWARE_REVISION_CHARACTERISTIC));
    assert!(is_info_characteristic(BLUETOOTH_SOFTWARE_REVISION_CHARACTERISTIC));
    assert!(is_info_characteristic(BLUETOOTH_MANUFACTURER_NAME_CHARACTERISTIC));
    assert!(!is_info_characteristic(ARANET4_CHARACTERISTIC));
    assert!(!is_info_characteristic(ARANET4_SERVICE));
    assert!(!is_info_characteristic(0));
}
