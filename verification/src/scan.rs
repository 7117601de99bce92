//! The scan controller: the decision logic of the time-bounded discovery
//! loop.
//!
//! A driver owns the transport. It creates a `ScanState`, and only if the
//! controller is not already done does it start discovery on the adapter.
//! For each discovery event it asks `should_connect` whether the advertised
//! services admit the device; if so it connects, gathers the name, address,
//! payload and information reads, builds the record with `assemble_device`,
//! and hands it to `add_device`. When the controller reports done — the
//! result cap was reached — or the deadline passes (`on_timeout`), the
//! driver stops discovery and takes the accumulated records with
//! `into_devices`. Timeout and cap-reached are normal terminations, never
//! errors.

use vstd::prelude::*;

use crate::codec::spec_decode;
use crate::domain::{Device, Info, ScanError, spec_scan_error_of_decode};
use crate::ids::{ARANET4_CHARACTERISTIC, ARANET4_SERVICE};
use crate::info::{assemble_info, spec_assemble_info, spec_reads_view};

verus! {

/// Returns whether a list of service identifiers contains the given one.
pub fn contains_service(services: &Vec<u128>, service: u128) -> (r: bool)
    ensures
        r == services@.contains(service),
{
    let mut i: usize = 0;
    while i < services.len()
        invariant
            i <= services.len(),
            forall|j: int| 0 <= j < i ==> services@[j] != service,
        decreases services.len() - i,
    {
        if services[i] == service {
            return true;
        }
        i += 1;
    }
    false
}

/// Finds the position of the first data characteristic among the
/// characteristics a connected device exposes, or `None` where the device
/// exposes none — a protocol violation for a device that claims the sensor
/// service.
pub fn find_data_characteristic(characteristics: &Vec<u128>) -> (r: Option<usize>)
    ensures
        match r {
            Some(i) => i < characteristics@.len() && characteristics@[i as int]
                == ARANET4_CHARACTERISTIC && forall|j: int|
                0 <= j < i ==> characteristics@[j] != ARANET4_CHARACTERISTIC,
            None => !characteristics@.contains(ARANET4_CHARACTERISTIC),
        },
{
    let mut i: usize = 0;
    while i < characteristics.len()
        invariant
            i <= characteristics.len(),
            forall|j: int| 0 <= j < i ==> characteristics@[j] != ARANET4_CHARACTERISTIC,
        decreases characteristics.len() - i,
    {
        if characteristics[i] == ARANET4_CHARACTERISTIC {
            return Some(i);
        }
        i += 1;
    }
    None
}

/// Builds one `Device` record from what was gathered on a connected device:
/// its advertised name, its address, the bytes of the data characteristic,
/// and the reads of its recognized information characteristics.
///
/// An absent name is a `MissingProperty` error; a payload that does not
/// decode surfaces the decode failure. Otherwise the record carries the
/// decoded data and the assembled information fields.
pub fn assemble_device(
    name: Option<String>,
    address: [u8; 6],
    payload: &Vec<u8>,
    info_reads: &Vec<(u128, Vec<u8>)>,
) -> (r: Result<Device, ScanError>)
    ensures
        name is None ==> r == Err::<Device, ScanError>(ScanError::MissingProperty),
        name is Some && spec_decode(payload@) is Err ==> r == Err::<Device, ScanError>(
            spec_scan_error_of_decode(spec_decode(payload@)->Err_0),
        ),
        r is Ok <==> name is Some && spec_decode(payload@) is Ok,
        r is Ok ==> {
            let d = r->Ok_0;
            &&& d.name == name->0
            &&& d.address == address
            &&& Ok::<_, crate::domain::DecodeError>(d.data) == spec_decode(payload@)
            &&& d.info@ == spec_assemble_info(spec_reads_view(info_reads@))
        },
{
    let name = match name {
        Some(n) => n,
        None => {
            return Err(ScanError::MissingProperty);
        },
    };
    let data = match crate::codec::decode(payload) {
        Ok(d) => d,
        Err(e) => {
            return Err(ScanError::from_decode(e));
        },
    };
    let info: Info = assemble_info(info_reads);
    Ok(Device { name, address, data, info })
}

/// Whether a driver that has accumulated `count` records is done under the
/// optional result cap `max_devices`.
pub open spec fn spec_cap_reached(max_devices: Option<usize>, count: nat) -> bool {
    match max_devices {
        Some(m) => count >= m,
        None => false,
    }
}

/// The decision state of one scan invocation: the records accumulated so
/// far, the optional result cap, and whether the scan is done.
pub struct ScanState {
    devices: Vec<Device>,
    max_devices: Option<usize>,
    done: bool,
}

impl ScanState {
    /// The records accumulated so far.
    pub closed spec fn spec_devices(self) -> Seq<Device> {
        self.devices@
    }

    /// The result cap the scan was started with.
    pub closed spec fn spec_max(self) -> Option<usize> {
        self.max_devices
    }

    /// Whether the scan is done: the cap was reached, or the deadline
    /// passed.
    pub closed spec fn spec_done(self) -> bool {
        self.done
    }

    /// Invariant: the accumulated records never exceed the cap, and a
    /// controller that has filled the cap is done.
    pub open spec fn wf(self) -> bool {
        match self.spec_max() {
            Some(m) => self.spec_devices().len() <= m && (spec_cap_reached(
                self.spec_max(),
                self.spec_devices().len(),
            ) ==> self.spec_done()),
            None => true,
        }
    }

    /// Creates the controller for one scan invocation.
    ///
    /// With a cap of zero the controller is born done and holds no records:
    /// a driver that honours `is_done` then returns the empty result without
    /// ever starting discovery on the adapter.
    pub fn new(max_devices: Option<usize>) -> (s: ScanState)
        ensures
            s.spec_devices().len() == 0,
            s.spec_max() == max_devices,
            s.spec_done() == spec_cap_reached(max_devices, 0),
            s.spec_done() <==> max_devices == Some(0usize),
            s.wf(),
    {
        let done = match max_devices {
            Some(m) => m == 0,
            None => false,
        };
        ScanState { devices: Vec::new(), max_devices, done }
    }

    /// Returns whether the scan is done; a driver stops discovery and stops
    /// consuming events as soon as this holds.
    pub fn is_done(&self) -> (r: bool)
        ensures
            r == self.spec_done(),
    {
        self.done
    }

    /// Returns the number of records accumulated so far.
    pub fn count(&self) -> (r: usize)
        ensures
            r == self.spec_devices().len(),
    {
        self.devices.len()
    }

    /// Decides one discovery event: connect to the device only if the scan
    /// still wants records and the advertised services include the sensor
    /// service. The adapter-level filter is advisory only, so this check is
    /// mandatory: a device that does not advertise the sensor service is
    /// skipped and never reaches the results.
    pub fn should_connect(&self, services: &Vec<u128>) -> (r: bool)
        ensures
            r == (!self.spec_done() && services@.contains(ARANET4_SERVICE)),
    {
        !self.done && contains_service(services, ARANET4_SERVICE)
    }

    /// Appends one assembled record, and turns done exactly when the cap is
    /// reached by it — the driver then stops discovery at once instead of
    /// waiting out the rest of the deadline.
    pub fn add_device(&mut self, device: Device)
        requires
            !old(self).spec_done(),
            old(self).wf(),
        ensures
            final(self).spec_devices() == old(self).spec_devices().push(device),
            final(self).spec_max() == old(self).spec_max(),
            final(self).spec_done() == spec_cap_reached(
                old(self).spec_max(),
                old(self).spec_devices().len() + 1,
            ),
            final(self).wf(),
    {
        self.devices.push(device);
        self.done = match self.max_devices {
            Some(m) => self.devices.len() >= m,
            None => false,
        };
    }

    /// Records that the deadline passed with no further discovery event:
    /// the scan is done, the accumulated records stand unchanged, and no
    /// error arises — timeout is a normal termination.
    pub fn on_timeout(&mut self)
        ensures
            final(self).spec_devices() == old(self).spec_devices(),
            final(self).spec_max() == old(self).spec_max(),
            final(self).spec_done(),
            old(self).wf() ==> final(self).wf(),
    {
        self.done = true;
    }

    /// Hands the accumulated records to the caller.
    pub fn into_devices(self) -> (r: Vec<Device>)
        ensures
            r@ == self.spec_devices(),
    {
        self.devices
    }
}

/// How many events of a discovery sequence match the service filter. Each
/// event is written as the one bit the filter decision reads: whether the
/// device's advertised services include the sensor service.
pub open spec fn spec_matching_count(events: Seq<bool>) -> nat
    decreases events.len(),
{
    if events.len() == 0 {
        0
    } else {
        spec_matching_count(events.drop_last()) + if events.last() {
            1nat
        } else {
            0
        }
    }
}

/// The number of records a driver holds after consuming a discovery
/// sequence in order: a matching event adds one record while the controller
/// wants more; a non-matching event never adds one; once the cap is reached
/// nothing more is consumed.
pub open spec fn spec_run_count(max_devices: Option<usize>, events: Seq<bool>) -> nat
    decreases events.len(),
{
    if events.len() == 0 {
        0
    } else {
        let c = spec_run_count(max_devices, events.drop_last());
        if spec_cap_reached(max_devices, c) || !events.last() {
            c
        } else {
            c + 1
        }
    }
}

/// Law: the cap is an early exit. A run over any discovery sequence
/// accumulates one record per matching event up to the cap and not one
/// record beyond it; without a cap, one record per matching event.
pub proof fn lemma_cap_early_exit(max_devices: Option<usize>, events: Seq<bool>)
    ensures
        match max_devices {
            Some(m) => spec_run_count(max_devices, events) == if spec_matching_count(events)
                <= m {
                spec_matching_count(events)
            } else {
                m as nat
            },
            None => spec_run_count(max_devices, events) == spec_matching_count(events),
        },
    decreases events.len(),
{
    if events.len() > 0 {
        lemma_cap_early_exit(max_devices, events.drop_last());
    }
}

/// Law: the filter is robust. A discovery event for a device whose
/// advertised services do not include the sensor service leaves the run's
/// records exactly as they were, even though the adapter-level filter was
/// already requested.
pub proof fn lemma_non_matching_event_adds_nothing(max_devices: Option<usize>, events: Seq<bool>)
    ensures
        spec_run_count(max_devices, events.push(false)) == spec_run_count(max_devices, events),
{
    assert(events.push(false).drop_last() =~= events);
    assert(!events.push(false).last());
}

} // verus!
