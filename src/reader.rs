use vstd::prelude::*;

use crate::decode::{decode_payload, decode_result};
use crate::reading::SensorReading;

verus! {

/// Why one read cycle produced no reading.
#[derive(Clone, Copy, Debug, PartialEq, Eq, Structural)]
pub enum ReadError {
    /// The host has no wireless adapter.
    NoAdapter,
    /// No advertised device name starts with the sensor's prefix.
    DeviceNotFound,
    /// Asking for, or making, the connection failed.
    ConnectFailed,
    /// The device offers no current-readings attribute.
    CharacteristicNotFound,
    /// The payload was shorter than a full reading.
    MalformedPayload,
    /// Listing adapters or devices, scanning, discovering or reading failed.
    TransportError,
}

/// Seconds that discovery runs before the found devices are listed.
pub const SCAN_WINDOW_SECS: u64 = 5;

/// Identifier of the attribute that holds the current readings,
/// `f0cd3001-95da-4f4b-9ac8-aa55d312af0c`, as a 128-bit integer.
pub const CURRENT_READINGS_UUID: u128 = 0xf0cd300195da4f4b9ac8aa55d312af0c;

/// The bytes of `Aranet4`, the prefix of the sensor's advertised name.
pub open spec fn name_prefix() -> Seq<u8> {
    seq![65u8, 114u8, 97u8, 110u8, 101u8, 116u8, 52u8]
}

/// Whether an advertised name (as UTF-8 bytes, `None` when the device
/// advertised none) belongs to the sensor.
pub open spec fn is_sensor_name(n: Option<Vec<u8>>) -> bool {
    match n {
        Some(b) => name_prefix().is_prefix_of(b@),
        None => false,
    }
}

/// `i` is the first position of a sensor name in `names`.
pub open spec fn is_first_sensor(names: Seq<Option<Vec<u8>>>, i: int) -> bool {
    &&& 0 <= i < names.len()
    &&& is_sensor_name(names[i])
    &&& forall|j: int| 0 <= j < i ==> !is_sensor_name(#[trigger] names[j])
}

/// The device that a cycle selects among the listed ones: the first whose
/// name matches, else `DeviceNotFound`.
pub open spec fn selected_device(names: Seq<Option<Vec<u8>>>) -> Result<usize, ReadError> {
    if exists|i: int| is_first_sensor(names, i) {
        Ok((choose|i: int| is_first_sensor(names, i)) as usize)
    } else {
        Err(ReadError::DeviceNotFound)
    }
}

/// `k` is the first position of the current-readings identifier in `ids`.
pub open spec fn is_first_target(ids: Seq<u128>, k: int) -> bool {
    &&& 0 <= k < ids.len()
    &&& ids[k] == CURRENT_READINGS_UUID
    &&& forall|j: int| 0 <= j < k ==> #[trigger] ids[j] != CURRENT_READINGS_UUID
}

/// The position of the current-readings attribute among the listed ones.
pub open spec fn target_attribute(ids: Seq<u128>) -> Option<usize> {
    if exists|k: int| is_first_target(ids, k) {
        Some((choose|k: int| is_first_target(ids, k)) as usize)
    } else {
        None
    }
}

/// What the transport reports back after performing the operation that a
/// `Step` asks for.
pub enum Event {
    /// The operation completed (scan started or stopped, connected,
    /// disconnected).
    Done,
    /// The operation failed.
    Failed,
    /// The number of wireless adapters.
    Adapters(usize),
    /// The advertised name of each discovered device, in the transport's
    /// order, as UTF-8 bytes; `None` where a device's properties or name could
    /// not be had.
    Peripherals(Vec<Option<Vec<u8>>>),
    /// Whether the selected device is connected already.
    Connection(bool),
    /// The identifiers of the device's attributes, in the transport's order.
    Attributes(Vec<u128>),
    /// The bytes read from the current-readings attribute, and the clock in
    /// seconds since the Unix epoch when they arrived.
    Payload(Vec<u8>, u64),
}

/// One state of a read cycle: each variant but `Finished` names the transport
/// operation that the cycle waits on. A cycle starts at `ListAdapters`; after
/// `StartScan` the transport lets discovery run for `SCAN_WINDOW_SECS` before
/// it reports. Devices and attributes are named by their position in the lists
/// that the transport reported.
#[derive(Clone, Copy, Debug)]
pub enum Step {
    ListAdapters,
    /// Start discovery on the first adapter, without a filter.
    StartScan,
    ListPeripherals,
    /// Stop discovery; `pending` is the device chosen, or the error that ends
    /// the cycle once discovery is stopped.
    StopScan { pending: Result<usize, ReadError> },
    CheckConnection { device: usize },
    Connect { device: usize },
    DiscoverAttributes { device: usize },
    ReadAttribute { device: usize, attribute: usize },
    /// Disconnect, then end with `outcome` whatever the disconnect gives.
    Disconnect { device: usize, outcome: Result<SensorReading, ReadError> },
    Finished { outcome: Result<SensorReading, ReadError> },
}

pub open spec fn fail(e: ReadError) -> Step {
    Step::Finished { outcome: Err(e) }
}

impl Step {
    /// The first state of a cycle.
    pub fn start() -> (r: Step)
        ensures
            r == Step::ListAdapters,
    {
        Step::ListAdapters
    }

    /// The transition table of a cycle. An event other than the reply that
    /// the state waits on counts as that operation's failure. Every failure
    /// after the connection is made still passes through `Disconnect`, whose
    /// own result never changes the outcome.
    pub open spec fn next_step(self, e: Event) -> Step {
        match self {
            Step::ListAdapters => match e {
                Event::Adapters(n) => if n == 0 {
                    fail(ReadError::NoAdapter)
                } else {
                    Step::StartScan
                },
                _ => fail(ReadError::TransportError),
            },
            Step::StartScan => match e {
                Event::Done => Step::ListPeripherals,
                _ => fail(ReadError::TransportError),
            },
            Step::ListPeripherals => match e {
                Event::Peripherals(names) => Step::StopScan { pending: selected_device(names@) },
                _ => Step::StopScan { pending: Err(ReadError::TransportError) },
            },
            Step::StopScan { pending } => match e {
                Event::Done => match pending {
                    Ok(device) => Step::CheckConnection { device },
                    Err(x) => fail(x),
                },
                _ => fail(ReadError::TransportError),
            },
            Step::CheckConnection { device } => match e {
                Event::Connection(true) => Step::DiscoverAttributes { device },
                Event::Connection(false) => Step::Connect { device },
                _ => fail(ReadError::ConnectFailed),
            },
            Step::Connect { device } => match e {
                Event::Done => Step::DiscoverAttributes { device },
                _ => fail(ReadError::ConnectFailed),
            },
            Step::DiscoverAttributes { device } => match e {
                Event::Attributes(ids) => match target_attribute(ids@) {
                    Some(attribute) => Step::ReadAttribute { device, attribute },
                    None => Step::Disconnect {
                        device,
                        outcome: Err(ReadError::CharacteristicNotFound),
                    },
                },
                _ => Step::Disconnect { device, outcome: Err(ReadError::TransportError) },
            },
            Step::ReadAttribute { device, attribute } => match e {
                Event::Payload(bytes, now) => Step::Disconnect {
                    device,
                    outcome: decode_result(bytes@, now),
                },
                _ => Step::Disconnect { device, outcome: Err(ReadError::TransportError) },
            },
            Step::Disconnect { device, outcome } => Step::Finished { outcome },
            Step::Finished { outcome } => Step::Finished { outcome },
        }
    }

    /// Takes the transport's report on the pending operation and moves to the
    /// next state.
    pub fn advance(self, e: Event) -> (r: Step)
        ensures
            r == self.next_step(e),
    {
        match self {
            Step::ListAdapters => match e {
                Event::Adapters(n) => if n == 0 {
                    Step::Finished { outcome: Err(ReadError::NoAdapter) }
                } else {
                    Step::StartScan
                },
                _ => Step::Finished { outcome: Err(ReadError::TransportError) },
            },
            Step::StartScan => match e {
                Event::Done => Step::ListPeripherals,
                _ => Step::Finished { outcome: Err(ReadError::TransportError) },
            },
            Step::ListPeripherals => match e {
                Event::Peripherals(names) => {
                    let pending = match select_device(&names) {
                        Some(i) => Ok(i),
                        None => Err(ReadError::DeviceNotFound),
                    };
                    Step::StopScan { pending }
                },
                _ => Step::StopScan { pending: Err(ReadError::TransportError) },
            },
            Step::StopScan { pending } => match e {
                Event::Done => match pending {
                    Ok(device) => Step::CheckConnection { device },
                    Err(x) => Step::Finished { outcome: Err(x) },
                },
                _ => Step::Finished { outcome: Err(ReadError::TransportError) },
            },
            Step::CheckConnection { device } => match e {
                Event::Connection(connected) => if connected {
                    Step::DiscoverAttributes { device }
                } else {
                    Step::Connect { device }
                },
                _ => Step::Finished { outcome: Err(ReadError::ConnectFailed) },
            },
            Step::Connect { device } => match e {
                Event::Done => Step::DiscoverAttributes { device },
                _ => Step::Finished { outcome: Err(ReadError::ConnectFailed) },
            },
            Step::DiscoverAttributes { device } => match e {
                Event::Attributes(ids) => match find_target(&ids) {
                    Some(attribute) => Step::ReadAttribute { device, attribute },
                    None => Step::Disconnect {
                        device,
                        outcome: Err(ReadError::CharacteristicNotFound),
                    },
                },
                _ => Step::Disconnect { device, outcome: Err(ReadError::TransportError) },
            },
            Step::ReadAttribute { device, .. } => match e {
                Event::Payload(bytes, now) => Step::Disconnect {
                    device,
                    outcome: decode_payload(bytes.as_slice(), now),
                },
                _ => Step::Disconnect { device, outcome: Err(ReadError::TransportError) },
            },
            Step::Disconnect { outcome, .. } => Step::Finished { outcome },
            Step::Finished { outcome } => Step::Finished { outcome },
        }
    }
}

/// Once discovery has run, every path stops it; once the device is
/// connected, every path disconnects before the cycle ends; and the outcome
/// that a disconnect carries is the cycle's outcome, whatever the disconnect
/// reports.
pub proof fn cleanup_is_never_skipped(s: Step, e: Event)
    ensures
        s is ListPeripherals ==> s.next_step(e) is StopScan,
        s is DiscoverAttributes ==> (s.next_step(e) is ReadAttribute || s.next_step(e) is Disconnect),
        s is ReadAttribute ==> s.next_step(e) is Disconnect,
        s matches Step::Disconnect { device, outcome } ==> s.next_step(e) == (Step::Finished { outcome }),
        s is Finished ==> s.next_step(e) == s,
{
}

proof fn lemma_first_sensor_unique(names: Seq<Option<Vec<u8>>>, i: int, k: int)
    requires
        is_first_sensor(names, i),
        is_first_sensor(names, k),
    ensures
        i == k,
{
}

proof fn lemma_first_target_unique(ids: Seq<u128>, i: int, k: int)
    requires
        is_first_target(ids, i),
        is_first_target(ids, k),
    ensures
        i == k,
{
}

/// Whether `name` starts with the bytes of `Aranet4`.
pub fn has_sensor_prefix(name: &Vec<u8>) -> (r: bool)
    ensures
        r == name_prefix().is_prefix_of(name@),
{
    let ok = name.len() >= 7 && name[0] == 65u8 && name[1] == 114u8 && name[2] == 97u8
        && name[3] == 110u8 && name[4] == 101u8 && name[5] == 116u8 && name[6] == 52u8;
    proof {
        if ok {
            assert(name_prefix() =~= name@.subrange(0, 7));
        } else if name_prefix().is_prefix_of(name@) {
            assert(name@.subrange(0, 7)[0] == name_prefix()[0]);
        }
    }
    ok
}

/// The first device whose advertised name starts with `Aranet4`.
pub fn select_device(names: &Vec<Option<Vec<u8>>>) -> (r: Option<usize>)
    ensures
        r matches Some(i) ==> is_first_sensor(names@, i as int),
        r is None ==> forall|i: int| 0 <= i < names@.len() ==> !is_sensor_name(#[trigger] names@[i]),
        r matches Some(i) ==> selected_device(names@) == Ok::<usize, ReadError>(i),
        r is None ==> selected_device(names@) == Err::<usize, ReadError>(ReadError::DeviceNotFound),
{
    let mut i: usize = 0;
    while i < names.len()
        invariant
            0 <= i <= names@.len(),
            forall|j: int| 0 <= j < i ==> !is_sensor_name(#[trigger] names@[j]),
        decreases names@.len() - i,
    {
        match &names[i] {
            Some(b) => {
                if has_sensor_prefix(b) {
                    proof {
                        assert(is_first_sensor(names@, i as int));
                        let k = choose|k: int| is_first_sensor(names@, k);
                        lemma_first_sensor_unique(names@, i as int, k);
                    }
                    return Some(i);
                }
            },
            None => {},
        }
        i += 1;
    }
    None
}

/// The position of the current-readings attribute among `ids`.
pub fn find_target(ids: &Vec<u128>) -> (r: Option<usize>)
    ensures
        r == target_attribute(ids@),
        r matches Some(k) ==> is_first_target(ids@, k as int),
        r is None ==> forall|k: int| 0 <= k < ids@.len() ==> #[trigger] ids@[k] != CURRENT_READINGS_UUID,
{
    let mut k: usize = 0;
    while k < ids.len()
        invariant
            0 <= k <= ids@.len(),
            forall|j: int| 0 <= j < k ==> #[trigger] ids@[j] != CURRENT_READINGS_UUID,
        decreases ids@.len() - k,
    {
        if ids[k] == CURRENT_READINGS_UUID {
            proof {
                assert(is_first_target(ids@, k as int));
                let c = choose|c: int| is_first_target(ids@, c);
                lemma_first_target_unique(ids@, k as int, c);
            }
            return Some(k);
        }
        k += 1;
    }
    None
}

} // verus!
