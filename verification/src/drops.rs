//! Collects what was dropped and says when it is time to report it.

use crate::assembler::PacketFailure;
use crate::clock::Instant;
use crate::values::NonZeroCount;
use vstd::prelude::*;

verus! {

pub const DROP_REPORT_INTERVAL_NANOS: u64 = 1_000_000_000;

#[derive(Clone, Copy, Debug, PartialEq, Eq, Structural)]
pub struct PacketDropReport {
    pub dropped: u64,
    pub rejected: u64,
    pub last_failure: PacketFailure,
}

#[derive(Clone, Copy, Debug, PartialEq, Eq, Structural)]
pub struct MetadataDropReport {
    pub unmatched: usize,
}

/// A report that grows until it is due.
#[derive(Debug)]
pub struct DropSummary<R> {
    pub pending: Option<R>,
    pub last_report: Instant,
}

impl<R> DropSummary<R> {
    pub fn new(now: Instant) -> (r: Self)
        ensures
            r.pending is None,
            r.last_report == now,
    {
        DropSummary { pending: None, last_report: now }
    }

    /// When the pending report is due: one interval after the last one.
    pub open spec fn spec_deadline(self) -> Option<Instant> {
        if self.pending is Some {
            Some(self.last_report.spec_plus(DROP_REPORT_INTERVAL_NANOS as int))
        } else {
            None
        }
    }

    pub fn deadline(&self) -> (r: Option<Instant>)
        ensures
            r == self.spec_deadline(),
    {
        match &self.pending {
            Some(_) => Some(self.last_report.plus(DROP_REPORT_INTERVAL_NANOS)),
            None => None,
        }
    }

    pub fn report_if_due(&mut self, now: Instant) -> (r: Option<R>)
        ensures
            if old(self).pending is Some && old(self).spec_deadline()->0.nanos <= now.nanos {
                r == old(self).pending && final(self).pending is None && final(self).last_report
                    == now
            } else {
                r is None && *final(self) == *old(self)
            },
    {
        match self.deadline() {
            Some(deadline) => {
                if deadline.nanos > now.nanos {
                    None
                } else {
                    self.report(now)
                }
            },
            None => None,
        }
    }

    pub fn report(&mut self, now: Instant) -> (r: Option<R>)
        ensures
            r == old(self).pending,
            final(self).pending is None,
            final(self).last_report == if r is Some {
                now
            } else {
                old(self).last_report
            },
    {
        let report = self.pending.take();
        if report.is_some() {
            self.last_report = now;
        }
        report
    }

    /// Makes a pending report due at once.
    pub fn force_due(&mut self, now: Instant)
        requires
            now.nanos >= DROP_REPORT_INTERVAL_NANOS,
        ensures
            final(self).pending == old(self).pending,
            final(self).last_report.nanos == now.nanos - DROP_REPORT_INTERVAL_NANOS,
            final(self).pending is Some ==> final(self).spec_deadline() == Some(now),
    {
        self.last_report = Instant { nanos: now.nanos - DROP_REPORT_INTERVAL_NANOS };
    }
}

pub type PacketDropSummary = DropSummary<PacketDropReport>;

pub type MetadataDropSummary = DropSummary<MetadataDropReport>;

pub open spec fn u64_saturated(value: int) -> u64 {
    if value <= u64::MAX {
        value as u64
    } else {
        u64::MAX
    }
}

pub open spec fn pending_packets(pending: Option<PacketDropReport>) -> (u64, u64) {
    match pending {
        Some(report) => (report.dropped, report.rejected),
        None => (0, 0),
    }
}

/// Dropped packets add up; the failure named is the latest.
pub open spec fn drops_added(
    pending: Option<PacketDropReport>,
    count: int,
    reason: PacketFailure,
) -> Option<PacketDropReport> {
    let (dropped, rejected) = pending_packets(pending);
    Some(
        PacketDropReport {
            dropped: u64_saturated(dropped + count),
            rejected,
            last_failure: reason,
        },
    )
}

/// Rejected packets add up; the failure named is the latest.
pub open spec fn rejection_added(
    pending: Option<PacketDropReport>,
    reason: PacketFailure,
) -> Option<PacketDropReport> {
    let (dropped, rejected) = pending_packets(pending);
    Some(
        PacketDropReport { dropped, rejected: u64_saturated(rejected + 1), last_failure: reason },
    )
}

impl DropSummary<PacketDropReport> {
    fn counts(&self) -> (r: (u64, u64))
        ensures
            r == pending_packets(self.pending),
    {
        match &self.pending {
            Some(report) => (report.dropped, report.rejected),
            None => (0, 0),
        }
    }

    pub fn record(&mut self, count: NonZeroCount, reason: PacketFailure)
        ensures
            final(self).pending == drops_added(old(self).pending, count@ as int, reason),
            final(self).last_report == old(self).last_report,
    {
        let (dropped, rejected) = self.counts();
        self.pending =
        Some(
            PacketDropReport {
                dropped: dropped.saturating_add(count.get()),
                rejected,
                last_failure: reason,
            },
        );
    }

    pub fn record_rejection(&mut self, reason: PacketFailure)
        ensures
            final(self).pending == rejection_added(old(self).pending, reason),
            final(self).last_report == old(self).last_report,
    {
        let (dropped, rejected) = self.counts();
        self.pending =
        Some(
            PacketDropReport {
                dropped,
                rejected: rejected.saturating_add(1),
                last_failure: reason,
            },
        );
    }
}

/// Unmatched records add up; none leaves the report as it is.
pub open spec fn unmatched_added(
    pending: Option<MetadataDropReport>,
    count: int,
) -> Option<MetadataDropReport> {
    let earlier: int = match pending {
        Some(report) => report.unmatched as int,
        None => 0,
    };
    if count == 0 {
        pending
    } else {
        Some(
            MetadataDropReport {
                unmatched: if earlier + count <= usize::MAX {
                    (earlier + count) as usize
                } else {
                    usize::MAX
                },
            },
        )
    }
}

impl DropSummary<MetadataDropReport> {
    pub fn record_unmatched(&mut self, count: usize)
        ensures
            final(self).pending == unmatched_added(old(self).pending, count as int),
            final(self).last_report == old(self).last_report,
    {
        if count == 0 {
            return;
        }
        let earlier: usize = match &self.pending {
            Some(report) => report.unmatched,
            None => 0,
        };
        self.pending = Some(MetadataDropReport { unmatched: earlier.saturating_add(count) });
    }
}

/// A report counts what was dropped and what was rejected apart, up to what can be
/// counted, and names the latest failure.
pub proof fn law_reports_count_apart(
    report: PacketDropReport,
    count: u64,
    reason: PacketFailure,
)
    ensures
        drops_added(Some(report), count as int, reason) is Some,
        ({
            let after = drops_added(Some(report), count as int, reason)->0;
            &&& after.rejected == report.rejected
            &&& after.last_failure == reason
            &&& report.dropped + count <= u64::MAX ==> after.dropped == report.dropped + count
            &&& report.dropped + count > u64::MAX ==> after.dropped == u64::MAX
        }),
        rejection_added(Some(report), reason) is Some,
        ({
            let after = rejection_added(Some(report), reason)->0;
            &&& after.dropped == report.dropped
            &&& after.last_failure == reason
            &&& report.rejected < u64::MAX ==> after.rejected == report.rejected + 1
            &&& report.rejected == u64::MAX ==> after.rejected == u64::MAX
        }),
        drops_added(None, count as int, reason) == Some(
            PacketDropReport { dropped: count, rejected: 0, last_failure: reason },
        ),
        rejection_added(None, reason) == Some(
            PacketDropReport { dropped: 0, rejected: 1, last_failure: reason },
        ),
{
}

/// Unmatched records add up; without any no report comes about.
pub proof fn law_unmatched_records_add_up(pending: Option<MetadataDropReport>, count: usize)
    ensures
        unmatched_added(pending, 0) == pending,
        count > 0 ==> unmatched_added(None, count as int) == Some(
            MetadataDropReport { unmatched: count },
        ),
        count > 0 && pending is Some && pending->0.unmatched + count <= usize::MAX
            ==> unmatched_added(pending, count as int) == Some(
            MetadataDropReport { unmatched: (pending->0.unmatched + count) as usize },
        ),
{
}

/// A report is due a second after the last one, and only where there is something to
/// report.
pub proof fn law_reports_are_a_second_apart<R>(summary: DropSummary<R>)
    ensures
        summary.pending is None ==> summary.spec_deadline() is None,
        summary.pending is Some && summary.last_report.nanos <= u64::MAX - 1_000_000_000
            ==> summary.spec_deadline() == Some(
            Instant { nanos: (summary.last_report.nanos + 1_000_000_000) as u64 },
        ),
{
}

} // verus!
