//! Discovery and decoding of Aranet4 environmental sensors over Bluetooth
//! Low Energy.
//!
//! The crate holds the protocol logic: the fixed-layout payload decoder, the
//! device-information collector, and the time-bounded scan controller's state
//! machine. The BLE transport itself is an outside capability; a caller feeds
//! the raw bytes and discovery events it produces into the functions here.

pub mod ids;
pub mod domain;
pub mod codec;
pub mod info;
pub mod scan;

pub use domain::{Data, DecodeError, Device, Info, ScanError, Status};
