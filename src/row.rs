use vstd::prelude::*;

use crate::datetime::{instant_of, nanos_since_epoch, normalized_utc, to_instant, Instant, OffsetDatetime};

verus! {

/// One record of the demo table: a memo, a timestamp without time zone and a
/// timestamp with time zone.
#[derive(Clone, Debug)]
pub struct Row {
    pub memo: String,
    pub import_ts: Instant,
    pub import_tz: OffsetDatetime,
}

impl Row {
    pub open spec fn wf(&self) -> bool {
        self.import_ts.wf() && self.import_tz.wf()
    }

    /// The row as the table stores it: the timestamptz column hands its value
    /// back in UTC.
    pub open spec fn read_back_spec(&self) -> Row {
        Row { memo: self.memo, import_ts: self.import_ts, import_tz: normalized_utc(self.import_tz) }
    }

    /// Same memo text and the same points in time in both columns.
    pub open spec fn same_as_spec(&self, other: Row) -> bool {
        &&& self.memo@ == other.memo@
        &&& self.import_ts.abs_nanos() == other.import_ts.abs_nanos()
        &&& self.import_tz.abs_nanos() == other.import_tz.abs_nanos()
    }

    /// The row written for `memo`: the timestamp column takes `ts` without its
    /// offset, the timestamptz column takes `tz` as it is.
    pub fn new(memo: String, ts: &OffsetDatetime, tz: OffsetDatetime) -> (r: Row)
        requires
            ts.wf(),
            tz.wf(),
        ensures
            r.wf(),
            r.memo == memo,
            r.import_ts == instant_of(*ts),
            r.import_tz == tz,
    {
        Row { memo, import_ts: to_instant(ts), import_tz: tz }
    }

    /// What reading this row back from the table gives.
    pub fn read_back(&self) -> (r: Row)
        requires
            self.wf(),
        ensures
            r == self.read_back_spec(),
            r.wf(),
    {
        Row {
            memo: self.memo.clone(),
            import_ts: self.import_ts,
            import_tz: OffsetDatetime { seconds: self.import_tz.seconds, nanos: self.import_tz.nanos, offset: 0 },
        }
    }

    /// Whether `self` and `other` hold the same memo and the same points in time.
    pub fn same_as(&self, other: &Row) -> (r: bool)
        ensures
            r == self.same_as_spec(*other),
    {
        let memo_eq = self.memo == other.memo;
        let ts_eq = nanos_since_epoch(self.import_ts.seconds, self.import_ts.nanos)
            == nanos_since_epoch(other.import_ts.seconds, other.import_ts.nanos);
        memo_eq && ts_eq && self.import_tz.same_instant(&other.import_tz)
    }
}

/// A row read back from the table holds what was written into it.
pub proof fn lemma_read_back_unchanged(r: Row)
    requires
        r.wf(),
    ensures
        r.same_as_spec(r.read_back_spec()),
        r.read_back_spec().wf(),
{
}

} // verus!
