use vstd::prelude::*;

use crate::reader::ReadError;
use crate::reading::SensorReading;

verus! {

/// Seconds between the end of one read cycle and the start of the next.
pub const POLL_INTERVAL_SECS: u64 = 30;

/// HTTP status of the latest-reading endpoint when a reading is held.
pub const STATUS_OK: u16 = 200;

/// HTTP status of the latest-reading endpoint before the first reading.
pub const STATUS_UNAVAILABLE: u16 = 503;

/// The most recent reading of a successful cycle, if there was one.
///
/// The value is only ever replaced whole; callers that share it between a
/// writer and readers put it behind a reader/writer lock.
pub struct LatestReading {
    value: Option<SensorReading>,
}

impl View for LatestReading {
    type V = Option<SensorReading>;

    closed spec fn view(&self) -> Option<SensorReading> {
        self.value
    }
}

/// What the polling loop does after one cycle: the reading to append to the
/// history, if any, and how long to wait before the next cycle.
#[derive(Clone, Copy, Debug)]
pub struct CyclePlan {
    pub store: Option<SensorReading>,
    pub sleep_secs: u64,
}

/// The cell's value after a cycle that ended with `outcome`: a success
/// replaces it, a failure leaves it as it was.
pub open spec fn after_outcome(
    current: Option<SensorReading>,
    outcome: Result<SensorReading, ReadError>,
) -> Option<SensorReading> {
    match outcome {
        Ok(r) => Some(r),
        Err(_) => current,
    }
}

/// The cell's value after the cycles that ended with `outcomes`, in order.
pub open spec fn after_outcomes(
    start: Option<SensorReading>,
    outcomes: Seq<Result<SensorReading, ReadError>>,
) -> Option<SensorReading>
    decreases outcomes.len(),
{
    if outcomes.len() == 0 {
        start
    } else {
        after_outcome(after_outcomes(start, outcomes.drop_last()), outcomes.last())
    }
}

impl LatestReading {
    /// An empty cell.
    pub fn new() -> (r: LatestReading)
        ensures
            r@ is None,
    {
        LatestReading { value: None }
    }

    /// Replaces the value with `r`.
    pub fn set(&mut self, r: SensorReading)
        ensures
            final(self)@ == Some(r),
    {
        self.value = Some(r);
    }

    /// The value last set, or `None` if it never was.
    pub fn get(&self) -> (r: Option<SensorReading>)
        ensures
            r == self@,
    {
        self.value
    }

    /// Takes the outcome of one read cycle: a reading becomes the value and is
    /// handed back for the history; a failure changes nothing. Either way the
    /// loop goes on after `POLL_INTERVAL_SECS`.
    pub fn record_outcome(&mut self, outcome: Result<SensorReading, ReadError>) -> (plan: CyclePlan)
        ensures
            final(self)@ == after_outcome(old(self)@, outcome),
            outcome matches Ok(r) ==> plan.store == Some(r),
            outcome is Err ==> plan.store is None,
            outcome is Err ==> final(self)@ == old(self)@,
            plan.sleep_secs == POLL_INTERVAL_SECS,
    {
        match outcome {
            Ok(r) => {
                self.set(r);
                CyclePlan { store: Some(r), sleep_secs: POLL_INTERVAL_SECS }
            },
            Err(_) => CyclePlan { store: None, sleep_secs: POLL_INTERVAL_SECS },
        }
    }

    /// The HTTP status that the latest-reading endpoint answers with.
    pub fn status_code(&self) -> (r: u16)
        ensures
            self@ is Some ==> r == STATUS_OK,
            self@ is None ==> r == STATUS_UNAVAILABLE,
    {
        match self.value {
            Some(_) => STATUS_OK,
            None => STATUS_UNAVAILABLE,
        }
    }
}

/// After any run of cycles the cell holds the reading of the last successful
/// one; where none succeeded it holds what it held before the run.
pub proof fn cell_holds_latest_success(
    start: Option<SensorReading>,
    outcomes: Seq<Result<SensorReading, ReadError>>,
)
    ensures
        forall|i: int|
            0 <= i < outcomes.len() && outcomes[i] is Ok && (forall|j: int|
                i < j < outcomes.len() ==> #[trigger] outcomes[j] is Err) ==> after_outcomes(
                start,
                outcomes,
            ) == Some(outcomes[i]->Ok_0),
        (forall|j: int| 0 <= j < outcomes.len() ==> #[trigger] outcomes[j] is Err) ==> after_outcomes(
            start,
            outcomes,
        ) == start,
    decreases outcomes.len(),
{
    if outcomes.len() > 0 {
        let n = outcomes.len();
        let prefix = outcomes.drop_last();
        cell_holds_latest_success(start, prefix);
        assert forall|i: int|
            0 <= i < n && outcomes[i] is Ok && (forall|j: int|
                i < j < n ==> #[trigger] outcomes[j] is Err) implies after_outcomes(start, outcomes)
            == Some(outcomes[i]->Ok_0) by {
            if i < n - 1 {
                assert(outcomes[n - 1] is Err);
                assert(prefix[i] == outcomes[i]);
                assert forall|j: int| i < j < prefix.len() implies #[trigger] prefix[j] is Err by {
                    assert(prefix[j] == outcomes[j]);
                }
            }
        }
        if forall|j: int| 0 <= j < n ==> #[trigger] outcomes[j] is Err {
            assert(outcomes[n - 1] is Err);
            assert forall|j: int| 0 <= j < prefix.len() implies #[trigger] prefix[j] is Err by {
                assert(prefix[j] == outcomes[j]);
            }
        }
    }
}

/// A failed cycle leaves the cell's value as it was before the cycle.
pub proof fn failed_cycle_keeps_cell(current: Option<SensorReading>, e: ReadError)
    ensures
        after_outcome(current, Err(e)) == current,
{
}

} // verus!
