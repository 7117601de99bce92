//! The device-information collector: turns the characteristic reads of one
//! connected device into an `Info` record.
//!
//! Of the characteristics a device exposes, exactly six are recognized here
//! (the standard device-information strings); every other identifier is
//! ignored, so firmware variants with extra characteristics stay compatible.
//! A recognized characteristic that the device does not expose leaves its
//! field `None`, which is a legitimate state, not an error.

use vstd::prelude::*;

use crate::domain::{Info, InfoView};
use crate::ids::{
    BLUETOOTH_FIRMWARE_REVISION_CHARACTERISTIC, BLUETOOTH_HARDWARE_REVISION_CHARACTERISTIC,
    BLUETOOTH_MANUFACTURER_NAME_CHARACTERISTIC, BLUETOOTH_MODEL_NUMBER_CHARACTERISTIC,
    BLUETOOTH_SERIAL_NUMBER_CHARACTERISTIC, BLUETOOTH_SOFTWARE_REVISION_CHARACTERISTIC,
};

verus! {

/// The text that permissive (lossy) UTF-8 decoding yields for a byte
/// sequence; it depends on the bytes alone.
pub uninterp spec fn lossy_utf8(bytes: Seq<u8>) -> Seq<char>;

/// Relies on String::from_utf8_lossy: permissive UTF-8 decoding of the given
/// bytes, a function of the bytes alone.
#[verifier::external_body]
fn lossy_string(bytes: &Vec<u8>) -> (r: String)
    ensures
        r@ == lossy_utf8(bytes@),
{
    String::from_utf8_lossy(bytes).to_string()
}

/// Whether an identifier is one of the six recognized device-information
/// characteristics.
pub open spec fn spec_is_info_characteristic(characteristic: u128) -> bool {
    ||| characteristic == BLUETOOTH_MODEL_NUMBER_CHARACTERISTIC
    ||| characteristic == BLUETOOTH_SERIAL_NUMBER_CHARACTERISTIC
    ||| characteristic == BLUETOOTH_FIRMWARE_REVISION_CHARACTERISTIC
    ||| characteristic == BLUETOOTH_HARDWARE_REVISION_CHARACTERISTIC
    ||| characteristic == BLUETOOTH_SOFTWARE_REVISION_CHARACTERISTIC
    ||| characteristic == BLUETOOTH_MANUFACTURER_NAME_CHARACTERISTIC
}

/// Returns whether an identifier is one of the six recognized
/// device-information characteristics, so a caller knows which of a
/// device's characteristics to read for `assemble_info`.
pub fn is_info_characteristic(characteristic: u128) -> (r: bool)
    ensures
        r == spec_is_info_characteristic(characteristic),
{
    characteristic == BLUETOOTH_MODEL_NUMBER_CHARACTERISTIC
        || characteristic == BLUETOOTH_SERIAL_NUMBER_CHARACTERISTIC
        || characteristic == BLUETOOTH_FIRMWARE_REVISION_CHARACTERISTIC
        || characteristic == BLUETOOTH_HARDWARE_REVISION_CHARACTERISTIC
        || characteristic == BLUETOOTH_SOFTWARE_REVISION_CHARACTERISTIC
        || characteristic == BLUETOOTH_MANUFACTURER_NAME_CHARACTERISTIC
}

/// The record after one characteristic read is applied: a recognized
/// identifier replaces its field with the decoded text; any other
/// identifier leaves the record unchanged.
pub open spec fn spec_apply_read(v: InfoView, characteristic: u128, bytes: Seq<u8>) -> InfoView {
    if characteristic == BLUETOOTH_MODEL_NUMBER_CHARACTERISTIC {
        InfoView { model_number: Some(lossy_utf8(bytes)), ..v }
    } else if characteristic == BLUETOOTH_SERIAL_NUMBER_CHARACTERISTIC {
        InfoView { serial_number: Some(lossy_utf8(bytes)), ..v }
    } else if characteristic == BLUETOOTH_FIRMWARE_REVISION_CHARACTERISTIC {
        InfoView { firmware_revision: Some(lossy_utf8(bytes)), ..v }
    } else if characteristic == BLUETOOTH_HARDWARE_REVISION_CHARACTERISTIC {
        InfoView { hardware_revision: Some(lossy_utf8(bytes)), ..v }
    } else if characteristic == BLUETOOTH_SOFTWARE_REVISION_CHARACTERISTIC {
        InfoView { software_revision: Some(lossy_utf8(bytes)), ..v }
    } else if characteristic == BLUETOOTH_MANUFACTURER_NAME_CHARACTERISTIC {
        InfoView { manufacturer_name: Some(lossy_utf8(bytes)), ..v }
    } else {
        v
    }
}

/// The pairs of a read list as plain values: each identifier with the byte
/// sequence that was read for it.
pub open spec fn spec_reads_view(reads: Seq<(u128, Vec<u8>)>) -> Seq<(u128, Seq<u8>)> {
    reads.map_values(|p: (u128, Vec<u8>)| (p.0, p.1@))
}

/// The record assembled from a list of characteristic reads, applied in
/// order from the empty record; a later read of the same identifier wins.
pub open spec fn spec_assemble_info(reads: Seq<(u128, Seq<u8>)>) -> InfoView
    decreases reads.len(),
{
    if reads.len() == 0 {
        InfoView::empty()
    } else {
        spec_apply_read(
            spec_assemble_info(reads.drop_last()),
            reads.last().0,
            reads.last().1,
        )
    }
}

impl Info {
    /// Applies one characteristic read to the record: a recognized
    /// identifier stores the permissively decoded text in its field; any
    /// other identifier is ignored and the record is unchanged.
    pub fn apply_read(&mut self, characteristic: u128, bytes: &Vec<u8>)
        ensures
            final(self)@ == spec_apply_read(old(self)@, characteristic, bytes@),
    {
        if characteristic == BLUETOOTH_MODEL_NUMBER_CHARACTERISTIC {
            self.model_number = Some(lossy_string(bytes));
        } else if characteristic == BLUETOOTH_SERIAL_NUMBER_CHARACTERISTIC {
            self.serial_number = Some(lossy_string(bytes));
        } else if characteristic == BLUETOOTH_FIRMWARE_REVISION_CHARACTERISTIC {
            self.firmware_revision = Some(lossy_string(bytes));
        } else if characteristic == BLUETOOTH_HARDWARE_REVISION_CHARACTERISTIC {
            self.hardware_revision = Some(lossy_string(bytes));
        } else if characteristic == BLUETOOTH_SOFTWARE_REVISION_CHARACTERISTIC {
            self.software_revision = Some(lossy_string(bytes));
        } else if characteristic == BLUETOOTH_MANUFACTURER_NAME_CHARACTERISTIC {
            self.manufacturer_name = Some(lossy_string(bytes));
        }
    }
}

/// Builds an `Info` record from the reads of one device's recognized
/// device-information characteristics, applied in order.
pub fn assemble_info(reads: &Vec<(u128, Vec<u8>)>) -> (r: Info)
    ensures
        r@ == spec_assemble_info(spec_reads_view(reads@)),
{
    let ghost pairs = spec_reads_view(reads@);
    let mut info = Info::new();
    let mut i: usize = 0;
    while i < reads.len()
        invariant
            i <= reads.len(),
            pairs == spec_reads_view(reads@),
            info@ == spec_assemble_info(pairs.take(i as int)),
        decreases reads.len() - i,
    {
        info.apply_read(reads[i].0, &reads[i].1);
        proof {
            assert(pairs.take(i + 1).drop_last() =~= pairs.take(i as int));
            assert(pairs.take(i + 1).last() == pairs[i as int]);
        }
        i += 1;
    }
    proof {
        assert(pairs.take(reads@.len() as int) =~= pairs);
    }
    info
}

/// The field of a record that a recognized identifier selects.
pub open spec fn spec_info_field(v: InfoView, characteristic: u128) -> Option<Seq<char>> {
    if characteristic == BLUETOOTH_MODEL_NUMBER_CHARACTERISTIC {
        v.model_number
    } else if characteristic == BLUETOOTH_SERIAL_NUMBER_CHARACTERISTIC {
        v.serial_number
    } else if characteristic == BLUETOOTH_FIRMWARE_REVISION_CHARACTERISTIC {
        v.firmware_revision
    } else if characteristic == BLUETOOTH_HARDWARE_REVISION_CHARACTERISTIC {
        v.hardware_revision
    } else if characteristic == BLUETOOTH_SOFTWARE_REVISION_CHARACTERISTIC {
        v.software_revision
    } else if characteristic == BLUETOOTH_MANUFACTURER_NAME_CHARACTERISTIC {
        v.manufacturer_name
    } else {
        None
    }
}

/// Law: a field of the assembled record is present exactly when some read
/// in the list carries its identifier. Present fields come only from reads
/// that happened, and every recognized read leaves its field present; so a
/// device exposing only some of the six information characteristics yields
/// a record with exactly those fields populated, without error.
pub proof fn lemma_info_field_iff_read(reads: Seq<(u128, Seq<u8>)>, characteristic: u128)
    requires
        spec_is_info_characteristic(characteristic),
    ensures
        spec_info_field(spec_assemble_info(reads), characteristic) is Some <==> exists|i: int|
            0 <= i < reads.len() && (#[trigger] reads[i]).0 == characteristic,
    decreases reads.len(),
{
    if reads.len() == 0 {
    } else {
        let dl = reads.drop_last();
        let last = reads[reads.len() - 1];
        lemma_info_field_iff_read(dl, characteristic);
        assert(forall|i: int| 0 <= i < dl.len() ==> #[trigger] dl[i] == reads[i]);
        if last.0 == characteristic {
            assert(reads[reads.len() - 1].0 == characteristic);
        } else {
            if spec_info_field(spec_assemble_info(reads), characteristic) is Some {
                let i = choose|i: int|
                    0 <= i < dl.len() && (#[trigger] dl[i]).0 == characteristic;
                assert(reads[i].0 == characteristic);
            }
            if exists|i: int| 0 <= i < reads.len() && (#[trigger] reads[i]).0 == characteristic {
                let i = choose|i: int|
                    0 <= i < reads.len() && (#[trigger] reads[i]).0 == characteristic;
                assert(i < dl.len() && dl[i].0 == characteristic);
            }
        }
    }
}

} // verus!
