//! The fixed 128-bit identifiers of the Aranet4 service and of the
//! characteristics the scanner reads.
//!
//! A BLE UUID is a 128-bit value; these constants carry it as a `u128`, the
//! big-endian integer reading of the usual hexadecimal text form. Callers
//! that hold a transport-level UUID value convert it to its `u128` form
//! before handing it to this crate.

use vstd::prelude::*;

verus! {

/// Service UUID advertised by the Aranet4 sensor family
/// (0000fce0-0000-1000-8000-00805f9b34fb).
pub const ARANET4_SERVICE: u128 = 0x0000fce0_0000_1000_8000_00805f9b34fb;

/// Proprietary characteristic holding the 13-byte current-readings payload
/// (f0cd3001-95da-4f4b-9ac8-aa55d312af0c).
pub const ARANET4_CHARACTERISTIC: u128 = 0xf0cd3001_95da_4f4b_9ac8_aa55d312af0c;

/// Standard Device Information characteristic: model number string
/// (00002a24-0000-1000-8000-00805f9b34fb).
pub const BLUETOOTH_MODEL_NUMBER_CHARACTERISTIC: u128 = 0x00002a24_0000_1000_8000_00805f9b34fb;

/// Standard Device Information characteristic: serial number string
/// (00002a25-0000-1000-8000-00805f9b34fb).
pub const BLUETOOTH_SERIAL_NUMBER_CHARACTERISTIC: u128 = 0x00002a25_0000_1000_8000_00805f9b34fb;

/// Standard Device Information characteristic: firmware revision string
/// (00002a26-0000-1000-8000-00805f9b34fb).
pub const BLUETOOTH_FIRMWARE_REVISION_CHARACTERISTIC: u128 = 0x00002a26_0000_1000_8000_00805f9b34fb;

/// Standard Device Information characteristic: hardware revision string
/// (00002a27-0000-1000-8000-00805f9b34fb).
pub const BLUETOOTH_HARDWARE_REVISION_CHARACTERISTIC: u128 = 0x00002a27_0000_1000_8000_00805f9b34fb;

/// Standard Device Information characteristic: software revision string
/// (00002a28-0000-1000-8000-00805f9b34fb).
pub const BLUETOOTH_SOFTWARE_REVISION_CHARACTERISTIC: u128 = 0x00002a28_0000_1000_8000_00805f9b34fb;

/// Standard Device Information characteristic: manufacturer name string
/// (00002a29-0000-1000-8000-00805f9b34fb).
pub const BLUETOOTH_MANUFACTURER_NAME_CHARACTERISTIC: u128 = 0x00002a29_0000_1000_8000_00805f9b34fb;

} // verus!
