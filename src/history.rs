use vstd::prelude::*;

use crate::reading::SensorReading;

verus! {

/// Number of records a history query returns when the caller names no limit.
pub const DEFAULT_HISTORY_LIMIT: i64 = 10000;

/// Seconds in one hour of a history window.
pub const SECS_PER_HOUR: i64 = 3600;

/// The limit of a history query that names none.
pub fn default_limit() -> (r: i64)
    ensures
        r == DEFAULT_HISTORY_LIMIT,
{
    DEFAULT_HISTORY_LIMIT
}

/// `x` held to the range of `i64`.
pub open spec fn clamp_i64(x: int) -> int {
    if x < i64::MIN {
        i64::MIN as int
    } else if x > i64::MAX {
        i64::MAX as int
    } else {
        x
    }
}

/// The oldest timestamp that a query over the last `hours` hours admits at
/// time `now`: `now - 3600 * hours`, held to the range of `i64`.
pub fn history_threshold(now: i64, hours: i64) -> (r: i64)
    ensures
        r == clamp_i64(now - SECS_PER_HOUR * hours),
{
    let h: i128 = hours as i128;
    proof {
        assert(-3600 * 0x8000_0000_0000_0000 <= 3600 * h <= 3600 * 0x8000_0000_0000_0000)
            by (nonlinear_arith)
            requires
                -0x8000_0000_0000_0000 <= h <= 0x8000_0000_0000_0000,
        ;
    }
    let t: i128 = now as i128 - 3600 * h;
    if t < i64::MIN as i128 {
        i64::MIN
    } else if t > i64::MAX as i128 {
        i64::MAX
    } else {
        t as i64
    }
}

/// The lower bound on timestamps of a query: one for a window of `hours`,
/// none for a query by count alone.
pub fn query_threshold(now: i64, hours: Option<i64>) -> (r: Option<i64>)
    ensures
        hours is None ==> r is None,
        hours matches Some(h) ==> r == Some(clamp_i64(now - SECS_PER_HOUR * h) as i64),
{
    match hours {
        Some(h) => Some(history_threshold(now, h)),
        None => None,
    }
}

/// The order in which a query hands out the records that storage returned: a
/// windowed query is fetched oldest first and kept so; a query by count alone
/// is fetched newest first and turned round.
pub open spec fn arranged(rows: Seq<SensorReading>, hours: Option<i64>) -> Seq<SensorReading> {
    if hours is None {
        rows.reverse()
    } else {
        rows
    }
}

/// Puts the records that storage returned for a query into oldest-first order.
pub fn arrange_history(rows: Vec<SensorReading>, hours: Option<i64>) -> (r: Vec<SensorReading>)
    ensures
        r@ == arranged(rows@, hours),
{
    if hours.is_some() {
        return rows;
    }
    let mut out: Vec<SensorReading> = Vec::new();
    let mut i: usize = rows.len();
    while i > 0
        invariant
            i <= rows@.len(),
            out@.len() == rows@.len() - i,
            forall|k: int| 0 <= k < out@.len() ==> #[trigger] out@[k] == rows@[rows@.len() - 1 - k],
        decreases i,
    {
        i -= 1;
        out.push(rows[i]);
    }
    assert(out@ =~= rows@.reverse());
    out
}

/// Timestamps strictly increase along `s`.
pub open spec fn strictly_ascending(s: Seq<SensorReading>) -> bool {
    forall|i: int, j: int| 0 <= i < j < s.len() ==> s[i].timestamp < s[j].timestamp
}

/// Timestamps strictly decrease along `s`.
pub open spec fn strictly_descending(s: Seq<SensorReading>) -> bool {
    forall|i: int, j: int| 0 <= i < j < s.len() ==> s[i].timestamp > s[j].timestamp
}

/// The records that a query over the window starting at `threshold` may
/// return.
pub open spec fn in_window(records: Seq<SensorReading>, threshold: int) -> Seq<SensorReading> {
    records.filter(|r: SensorReading| r.timestamp >= threshold)
}

/// `rows` is a store's answer, holding `records`, to a query by count:
/// `min(limit, |records|)` of them, newest first, and none left out is newer
/// than one returned.
pub open spec fn is_newest_first_answer(
    records: Seq<SensorReading>,
    limit: int,
    rows: Seq<SensorReading>,
) -> bool {
    &&& strictly_descending(rows)
    &&& rows.len() == if limit < records.len() { limit } else { records.len() as int }
    &&& forall|i: int| 0 <= i < rows.len() ==> records.contains(#[trigger] rows[i])
    &&& forall|r: SensorReading, i: int|
        #![trigger records.contains(r), rows[i]]
        records.contains(r) && !rows.contains(r) && 0 <= i < rows.len() ==> r.timestamp
            < rows[i].timestamp
}

/// `rows` is a store's answer, holding `records`, to a query over the window
/// starting at `threshold`: the oldest `min(limit, n)` of the `n` records in
/// the window, oldest first.
pub open spec fn is_window_answer(
    records: Seq<SensorReading>,
    threshold: int,
    limit: int,
    rows: Seq<SensorReading>,
) -> bool {
    let window = in_window(records, threshold);
    &&& strictly_ascending(rows)
    &&& rows.len() == if limit < window.len() { limit } else { window.len() as int }
    &&& forall|i: int| 0 <= i < rows.len() ==> window.contains(#[trigger] rows[i])
    &&& forall|r: SensorReading, i: int|
        #![trigger window.contains(r), rows[i]]
        window.contains(r) && !rows.contains(r) && 0 <= i < rows.len() ==> rows[i].timestamp
            < r.timestamp
}

/// Whichever query served them, the records come out oldest first. A query by
/// count gives the `limit` most recent records (all of them, if fewer); a
/// query over the last `hours` hours gives records no older than
/// `now - 3600 * hours`, the oldest `limit` of them. This holds provided the
/// store answered the query as asked: over the window oldest first, by count
/// newest first.
pub proof fn history_is_chronological(
    records: Seq<SensorReading>,
    now: i64,
    hours: Option<i64>,
    limit: i64,
    rows: Seq<SensorReading>,
)
    requires
        hours is None ==> is_newest_first_answer(records, limit as int, rows),
        hours matches Some(h) ==> is_window_answer(
            records,
            clamp_i64(now - SECS_PER_HOUR * h),
            limit as int,
            rows,
        ),
    ensures
        strictly_ascending(arranged(rows, hours)),
        forall|i: int|
            0 <= i < arranged(rows, hours).len() ==> records.contains(
                #[trigger] arranged(rows, hours)[i],
            ),
        hours is None ==> arranged(rows, hours).len() == if limit < records.len() {
            limit as int
        } else {
            records.len() as int
        },
        hours is None ==> forall|r: SensorReading, i: int|
            #![trigger records.contains(r), arranged(rows, hours)[i]]
            records.contains(r) && !arranged(rows, hours).contains(r) && 0 <= i < arranged(
                rows,
                hours,
            ).len() ==> r.timestamp < arranged(rows, hours)[i].timestamp,
        hours matches Some(h) ==> forall|i: int|
            0 <= i < arranged(rows, hours).len() ==> #[trigger] arranged(rows, hours)[i].timestamp
                >= clamp_i64(now - SECS_PER_HOUR * h),
        hours matches Some(h) ==> arranged(rows, hours) == rows,
{
    match hours {
        None => {
            let out = rows.reverse();
            let n = rows.len();
            assert forall|i: int| 0 <= i < out.len() implies out[i] == rows[n - 1 - i] by {}
            assert forall|i: int, j: int| 0 <= i < j < out.len() implies out[i].timestamp
                < out[j].timestamp by {
                assert(rows[n - 1 - i].timestamp < rows[n - 1 - j].timestamp);
            }
            assert forall|i: int| 0 <= i < out.len() implies records.contains(#[trigger] out[i]) by {
                assert(records.contains(rows[n - 1 - i]));
            }
            assert forall|r: SensorReading, i: int|
                #![trigger records.contains(r), out[i]]
                records.contains(r) && !out.contains(r) && 0 <= i < out.len() implies r.timestamp
                < out[i].timestamp by {
                if rows.contains(r) {
                    let k = choose|k: int| 0 <= k < rows.len() && rows[k] == r;
                    assert(out[n - 1 - k] == r);
                }
                assert(r.timestamp < rows[n - 1 - i].timestamp);
            }
        },
        Some(h) => {
            let t = clamp_i64(now - SECS_PER_HOUR * h);
            assert forall|i: int| 0 <= i < rows.len() implies #[trigger] rows[i].timestamp >= t
                && records.contains(rows[i]) by {
                let pred = |r: SensorReading| r.timestamp >= t;
                let w = in_window(records, t);
                assert(w == records.filter(pred));
                assert(w.contains(rows[i]));
                let k = choose|k: int| 0 <= k < w.len() && w[k] == rows[i];
                records.lemma_filter_pred(pred, k);
                records.lemma_filter_contains_rev(pred, rows[i]);
            }
        },
    }
}

} // verus!
