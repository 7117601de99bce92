//! The domain model: one discovered sensor, its point-in-time reading, the
//! alert level, the optional device-information fields, and the error kinds.

use vstd::prelude::*;

verus! {

/// Alert level of a reading, encoded on the wire as a single byte equal to
/// 1 (GREEN), 2 (AMBER) or 3 (RED). Any other byte is an invalid encoding:
/// construction fails rather than substituting a guess.
#[derive(Clone, Copy, PartialEq, Eq, Structural, Debug)]
pub enum Status {
    GREEN,
    AMBER,
    RED,
}

impl Status {
    /// The wire byte that encodes this alert level.
    pub open spec fn spec_code(self) -> u8 {
        match self {
            Status::GREEN => 1,
            Status::AMBER => 2,
            Status::RED => 3,
        }
    }

    /// Decoding of a wire byte: 1, 2 and 3 are the three levels, in order;
    /// every other value is rejected.
    pub open spec fn spec_try_from(value: u8) -> Result<Status, ()> {
        if value == 1 {
            Ok(Status::GREEN)
        } else if value == 2 {
            Ok(Status::AMBER)
        } else if value == 3 {
            Ok(Status::RED)
        } else {
            Err(())
        }
    }

    /// Returns the wire byte that encodes this alert level.
    pub fn code(&self) -> (r: u8)
        ensures
            r == self.spec_code(),
    {
        match self {
            Status::GREEN => 1,
            Status::AMBER => 2,
            Status::RED => 3,
        }
    }

    /// Decodes a wire byte into an alert level; bytes outside {1, 2, 3} are
    /// rejected.
    pub fn try_from(value: u8) -> (r: Result<Status, ()>)
        ensures
            r == Status::spec_try_from(value),
    {
        if value == 1 {
            Ok(Status::GREEN)
        } else if value == 2 {
            Ok(Status::AMBER)
        } else if value == 3 {
            Ok(Status::RED)
        } else {
            Err(())
        }
    }
}

/// One point-in-time sensor reading, decoded from the fixed 13-byte payload.
///
/// The two scaled quantities are kept in their raw wire units so that every
/// field is an exact integer: `temperature_raw` counts twentieths of a degree
/// Celsius, and `pressure_raw` counts tenths of a hectopascal. A presentation
/// layer divides by 20 and by 10 to obtain degrees Celsius and hectopascals.
#[derive(Clone, Copy, PartialEq, Eq, Structural, Debug)]
pub struct Data {
    /// CO2 concentration in parts per million.
    pub co2: u16,
    /// Temperature in twentieths of a degree Celsius.
    pub temperature_raw: u16,
    /// Pressure in tenths of a hectopascal.
    pub pressure_raw: u16,
    /// Relative humidity in percent.
    pub humidity: u8,
    /// Battery level in percent.
    pub battery: u8,
    /// Alert level reported by the device.
    pub status: Status,
    /// Measurement interval in whole seconds.
    pub interval_seconds: u16,
    /// Age of the reading in whole seconds.
    pub ago_seconds: u16,
}

/// Why decoding a payload failed.
#[derive(Clone, Copy, PartialEq, Eq, Structural, Debug)]
pub enum DecodeError {
    /// The payload held fewer than the required 13 bytes.
    TruncatedPayload,
    /// The status byte was outside {1, 2, 3}.
    InvalidStatus,
}

/// Why a whole scan invocation failed. Timeout and cap-reached are not
/// errors: they end a scan normally with whatever was accumulated.
#[derive(Clone, Copy, PartialEq, Eq, Structural, Debug)]
pub enum ScanError {
    /// No usable BLE adapter is present.
    AdapterUnavailable,
    /// Scan start or stop, connect, or a characteristic read failed at the
    /// transport layer.
    TransportError,
    /// The data characteristic returned fewer than 13 bytes.
    TruncatedPayload,
    /// The status byte of the payload was outside {1, 2, 3}.
    InvalidStatus,
    /// An expected device property (name, service list, data characteristic)
    /// was absent where required.
    MissingProperty,
}

/// The scan-level error that a failed payload decode surfaces as.
pub open spec fn spec_scan_error_of_decode(e: DecodeError) -> ScanError {
    match e {
        DecodeError::TruncatedPayload => ScanError::TruncatedPayload,
        DecodeError::InvalidStatus => ScanError::InvalidStatus,
    }
}

impl ScanError {
    /// Maps a payload decode failure to the scan-level error it surfaces as.
    pub fn from_decode(e: DecodeError) -> (r: ScanError)
        ensures
            r == spec_scan_error_of_decode(e),
    {
        match e {
            DecodeError::TruncatedPayload => ScanError::TruncatedPayload,
            DecodeError::InvalidStatus => ScanError::InvalidStatus,
        }
    }
}

/// Mathematical model of an `Info` record: each field as the character
/// sequence it holds, or `None` where the device did not expose it.
pub struct InfoView {
    pub model_number: Option<Seq<char>>,
    pub serial_number: Option<Seq<char>>,
    pub firmware_revision: Option<Seq<char>>,
    pub hardware_revision: Option<Seq<char>>,
    pub software_revision: Option<Seq<char>>,
    pub manufacturer_name: Option<Seq<char>>,
}

impl InfoView {
    /// The record with every field absent.
    pub open spec fn empty() -> InfoView {
        InfoView {
            model_number: None,
            serial_number: None,
            firmware_revision: None,
            hardware_revision: None,
            software_revision: None,
            manufacturer_name: None,
        }
    }
}

/// The character sequence behind an optional string field.
pub open spec fn opt_str_view(s: Option<String>) -> Option<Seq<char>> {
    match s {
        Some(t) => Some(t@),
        None => None,
    }
}

/// The standard device-information fields of one sensor. Each field is
/// present only if the matching characteristic was both exposed and read;
/// absence is a legitimate state, not an error.
#[derive(PartialEq, Eq, Debug)]
pub struct Info {
    pub model_number: Option<String>,
    pub serial_number: Option<String>,
    pub firmware_revision: Option<String>,
    pub hardware_revision: Option<String>,
    pub software_revision: Option<String>,
    pub manufacturer_name: Option<String>,
}

impl View for Info {
    type V = InfoView;

    open spec fn view(&self) -> InfoView {
        InfoView {
            model_number: opt_str_view(self.model_number),
            serial_number: opt_str_view(self.serial_number),
            firmware_revision: opt_str_view(self.firmware_revision),
            hardware_revision: opt_str_view(self.hardware_revision),
            software_revision: opt_str_view(self.software_revision),
            manufacturer_name: opt_str_view(self.manufacturer_name),
        }
    }
}

impl Info {
    /// Returns the record with every field absent.
    pub fn new() -> (r: Info)
        ensures
            r@ == InfoView::empty(),
    {
        Info {
            model_number: None,
            serial_number: None,
            firmware_revision: None,
            hardware_revision: None,
            software_revision: None,
            manufacturer_name: None,
        }
    }
}

/// One discovered sensor: its display name, link-layer address, one data
/// snapshot and one device-information record. Built once per successful
/// discovery and read cycle; immutable afterwards.
#[derive(PartialEq, Eq, Debug)]
pub struct Device {
    /// Stable display name advertised by the device.
    pub name: String,
    /// Link-layer (hardware) address, six bytes.
    pub address: [u8; 6],
    /// The decoded current readings.
    pub data: Data,
    /// The device-information fields that could be read.
    pub info: Info,
}

} // verus!
