use vstd::prelude::*;

verus! {

/// Report the throughput once this much wall-clock time has passed
/// since the last report, in milliseconds.
pub const REPORT_INTERVAL_MS: u64 = 1000;

/// Saturating addition on `u64`.
pub open spec fn sat_add(a: u64, b: u64) -> u64 {
    if a + b > u64::MAX {
        u64::MAX
    } else {
        (a + b) as u64
    }
}

/// The aggregator's state: the running total of all count deltas the
/// workers forwarded, and the total as of the last throughput report.
///
/// The thread that owns a `Counter` blocks on its mailbox; on each
/// delta it calls `on_delta` with the wall-clock time elapsed since the
/// last report, prints the report when one is due, and resets its clock.
#[derive(Debug, Clone, Copy, PartialEq, Eq, Structural)]
pub struct Counter {
    pub total: u64,
    pub last_reported: u64,
}

impl Counter {
    /// The reported total never runs ahead of the running total.
    pub open spec fn wf(&self) -> bool {
        self.last_reported <= self.total
    }

    /// A fresh aggregator: nothing counted, nothing reported.
    pub fn new() -> (r: Self)
        ensures
            r.total == 0 && r.last_reported == 0,
            r.wf(),
    {
        Counter { total: 0, last_reported: 0 }
    }

    /// Fold one count delta into the total. When more than the report
    /// interval has elapsed since the last report, the result is the
    /// throughput for that interval — the total minus the reported
    /// snapshot — and the snapshot moves up; otherwise nothing is due.
    pub fn on_delta(&mut self, delta: u64, elapsed_ms: u64) -> (report: Option<u64>)
        requires
            old(self).wf(),
        ensures
            final(self).wf(),
            final(self).total == sat_add(old(self).total, delta),
            elapsed_ms > REPORT_INTERVAL_MS ==> {
                &&& report == Some((sat_add(old(self).total, delta) - old(self).last_reported) as u64)
                &&& final(self).last_reported == final(self).total
            },
            elapsed_ms <= REPORT_INTERVAL_MS ==> {
                &&& report == None::<u64>
                &&& final(self).last_reported == old(self).last_reported
            },
    {
        self.total = self.total.saturating_add(delta);
        if elapsed_ms > REPORT_INTERVAL_MS {
            let in_interval: u64 = self.total - self.last_reported;
            self.last_reported = self.total;
            Some(in_interval)
        } else {
            None
        }
    }
}

/// The sum of a sequence of deltas.
pub open spec fn seq_sum(s: Seq<u64>) -> int
    decreases s.len(),
{
    if s.len() == 0 {
        0
    } else {
        seq_sum(s.drop_last()) + s.last()
    }
}

/// The running total after a sequence of deltas, starting from zero.
pub open spec fn total_after(s: Seq<u64>) -> u64
    decreases s.len(),
{
    if s.len() == 0 {
        0
    } else {
        sat_add(total_after(s.drop_last()), s.last())
    }
}

/// Law: as long as the true sum of the deltas fits in the counter, the
/// aggregator's running total is exactly that sum — no delta is lost
/// or double counted.
pub proof fn lemma_total_is_sum(s: Seq<u64>)
    requires
        seq_sum(s) <= u64::MAX,
    ensures
        total_after(s) == seq_sum(s),
    decreases s.len(),
{
    if s.len() > 0 {
        assert(seq_sum(s.drop_last()) <= seq_sum(s));
        lemma_total_is_sum(s.drop_last());
    }
}

} // verus!
