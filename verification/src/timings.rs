//! A bounded recording of when frames passed each stage of the gateway. Recordings are
//! numbered; a sample that was begun during one cannot end up in another.

use vstd::prelude::*;

verus! {

pub const MAX_RECORDS: usize = 65_536;

/// When something passed a stage.
#[derive(Clone, Copy, Debug, PartialEq, Eq, Structural)]
pub enum TimingRecord {
    RtpAuComplete { timestamp_nanos: u64, rtp_timestamp: u32, ssrc: u32, byte_length: usize },
    MetadataMatch {
        timestamp_nanos: u64,
        sequence: u64,
        generation: u32,
        rtp_timestamp: u32,
        ssrc: u32,
    },
    HubEnqueue { timestamp_nanos: u64, sequence: u64, generation: u32 },
    SocketWriteStart {
        timestamp_nanos: u64,
        sequence: u64,
        generation: u32,
        connection_id: u64,
        byte_length: usize,
    },
    SocketWriteEnd {
        timestamp_nanos: u64,
        sequence: u64,
        generation: u32,
        connection_id: u64,
        byte_length: usize,
    },
}

/// A time that was read during the recording of the given number.
#[derive(Clone, Copy, Debug, PartialEq, Eq, Structural)]
pub struct TimingSample {
    pub epoch: u64,
    pub timestamp_nanos: u64,
}

#[derive(Debug)]
pub struct Trace {
    pub epoch: u64,
    pub active_epoch: Option<u64>,
    pub overflow_count: u64,
    pub records: Vec<TimingRecord>,
}

/// What a recording held when it ended.
#[derive(Debug)]
pub struct Snapshot {
    pub overflow_count: u64,
    pub records: Vec<TimingRecord>,
}

/// Whether a trace is the one before with one record more, or one more counted as lost,
/// where a record was taken, and the same where none was.
pub open spec fn noted(before: Trace, after: Trace, taken: bool) -> bool {
    &&& after.epoch == before.epoch
    &&& after.active_epoch == before.active_epoch
    &&& if !taken {
        after.records@ == before.records@ && after.overflow_count == before.overflow_count
    } else if before.records@.len() < MAX_RECORDS {
        &&& after.records@.len() == before.records@.len() + 1
        &&& after.records@.drop_last() == before.records@
        &&& after.overflow_count == before.overflow_count
    } else {
        &&& after.records@ == before.records@
        &&& after.overflow_count == if before.overflow_count < u64::MAX {
            (before.overflow_count + 1) as u64
        } else {
            u64::MAX
        }
    }
}

impl Trace {
    /// Whether a sample belongs to the recording that is active.
    pub open spec fn takes(self, sample: TimingSample) -> bool {
        self.active_epoch == Some(sample.epoch)
    }

    /// An active recording is the latest one, numbers start at one, and no more is
    /// recorded than there is room for.
    pub open spec fn wf(self) -> bool {
        &&& self.active_epoch is Some ==> self.active_epoch->0 == self.epoch && self.epoch > 0
        &&& self.records@.len() <= MAX_RECORDS
    }

    pub fn new() -> (r: Self)
        ensures
            r.wf(),
            r.epoch == 0,
            r.active_epoch is None,
            r.overflow_count == 0,
            r.records@ == Seq::<TimingRecord>::empty(),
    {
        Trace { epoch: 0, active_epoch: None, overflow_count: 0, records: Vec::new() }
    }

    /// Starts the next recording, empty.
    pub fn start(&mut self)
        requires
            old(self).epoch < u64::MAX,
        ensures
            final(self).wf(),
            final(self).epoch == old(self).epoch + 1,
            final(self).active_epoch == Some(final(self).epoch),
            final(self).overflow_count == 0,
            final(self).records@ == Seq::<TimingRecord>::empty(),
    {
        self.records.clear();
        self.overflow_count = 0;
        self.epoch = self.epoch + 1;
        self.active_epoch = Some(self.epoch);
    }

    /// Reads the clock for the active recording; without one the clock is not read.
    pub fn sample_with<F: FnOnce() -> Option<u64>>(&self, clock: F) -> (r: Option<TimingSample>)
        requires
            self.active_epoch is Some ==> clock.requires(()),
        ensures
            match self.active_epoch {
                None => r is None,
                Some(epoch) => match r {
                    Some(sample) => sample.epoch == epoch && clock.ensures(
                        (),
                        Some(sample.timestamp_nanos),
                    ),
                    None => clock.ensures((), None),
                },
            },
    {
        match self.active_epoch {
            None => None,
            Some(epoch) => match clock() {
                Some(timestamp_nanos) => Some(TimingSample { epoch, timestamp_nanos }),
                None => None,
            },
        }
    }

    /// Adds a record for a sample of the active recording. A sample of another one is
    /// refused, and its record not even built; where there is no room the loss is
    /// counted.
    pub fn publish<F: FnOnce(u64) -> TimingRecord>(&mut self, sample: TimingSample, build: F) -> (r:
        bool)
        requires
            old(self).wf(),
            build.requires((sample.timestamp_nanos,)),
        ensures
            final(self).wf(),
            final(self).epoch == old(self).epoch,
            final(self).active_epoch == old(self).active_epoch,
            r == (old(self).active_epoch == Some(sample.epoch)),
            r == old(self).takes(sample),
            noted(*old(self), *final(self), r),
            r && old(self).records@.len() < 65_536 ==> final(self).records@.len()
                == old(self).records@.len() + 1,
            final(self).records@.len() <= 65_536,
            !r ==> final(self).records@ == old(self).records@ && final(self).overflow_count == old(
                self,
            ).overflow_count,
            r && old(self).records@.len() < MAX_RECORDS ==> {
                &&& final(self).overflow_count == old(self).overflow_count
                &&& final(self).records@.len() == old(self).records@.len() + 1
                &&& final(self).records@.drop_last() == old(self).records@
                &&& build.ensures((sample.timestamp_nanos,), final(self).records@.last())
            },
            r && old(self).records@.len() == MAX_RECORDS ==> {
                &&& final(self).records@ == old(self).records@
                &&& final(self).overflow_count == if old(self).overflow_count < u64::MAX {
                    (old(self).overflow_count + 1) as u64
                } else {
                    u64::MAX
                }
            },
    {
        if self.active_epoch != Some(sample.epoch) {
            return false;
        }
        if self.records.len() < MAX_RECORDS {
            let record = build(sample.timestamp_nanos);
            self.records.push(record);
            assert(self.records@.drop_last() =~= old(self).records@);
        } else {
            self.overflow_count = self.overflow_count.saturating_add(1);
        }
        true
    }

    /// Whether a sample belongs to the active recording.
    pub fn is_active(&self, sample: TimingSample) -> (r: bool)
        ensures
            r == (self.active_epoch == Some(sample.epoch)),
            r == self.takes(sample),
    {
        self.active_epoch == Some(sample.epoch)
    }

    /// Adds a record to the recording of an earlier sample, at the time that the clock
    /// then gives. The clock is not read once that recording is over.
    pub fn record_in_epoch<C: FnOnce() -> Option<u64>, F: FnOnce(u64) -> TimingRecord>(
        &mut self,
        epoch: TimingSample,
        clock: C,
        build: F,
    ) -> (r: bool)
        requires
            old(self).wf(),
            old(self).active_epoch == Some(epoch.epoch) ==> clock.requires(()),
            forall|nanos: u64| #[trigger]
                clock.ensures((), Some(nanos)) ==> build.requires((nanos,)),
        ensures
            final(self).wf(),
            final(self).epoch == old(self).epoch,
            final(self).active_epoch == old(self).active_epoch,
            r ==> old(self).active_epoch == Some(epoch.epoch),
            r ==> old(self).takes(epoch),
            noted(*old(self), *final(self), r),
            !r && old(self).active_epoch == Some(epoch.epoch) ==> clock.ensures((), None),
            !r ==> final(self).records@ == old(self).records@ && final(self).overflow_count == old(
                self,
            ).overflow_count,
            r && old(self).records@.len() < MAX_RECORDS ==> {
                &&& final(self).overflow_count == old(self).overflow_count
                &&& final(self).records@.len() == old(self).records@.len() + 1
                &&& final(self).records@.drop_last() == old(self).records@
                &&& exists|nanos: u64| #[trigger]
                    clock.ensures((), Some(nanos)) && build.ensures(
                        (nanos,),
                        final(self).records@.last(),
                    )
            },
            r && old(self).records@.len() == MAX_RECORDS ==> {
                &&& final(self).records@ == old(self).records@
                &&& final(self).overflow_count == if old(self).overflow_count < u64::MAX {
                    (old(self).overflow_count + 1) as u64
                } else {
                    u64::MAX
                }
            },
    {
        if !self.is_active(epoch) {
            return false;
        }
        match self.sample_with(clock) {
            Some(sample) => self.publish(sample, build),
            None => false,
        }
    }

    /// Ends the recording and hands out what it holds.
    pub fn stop(&mut self) -> (r: Snapshot)
        requires
            old(self).wf(),
        ensures
            final(self).wf(),
            final(self).epoch == old(self).epoch,
            final(self).active_epoch is None,
            final(self).overflow_count == old(self).overflow_count,
            final(self).records@ == old(self).records@,
            r.overflow_count == old(self).overflow_count,
            r.records@ == old(self).records@,
    {
        self.active_epoch = None;
        let mut records: Vec<TimingRecord> = Vec::new();
        let mut at: usize = 0;
        while at < self.records.len()
            invariant
                at <= self.records@.len(),
                records@ == self.records@.take(at as int),
            decreases self.records@.len() - at,
        {
            records.push(self.records[at]);
            at = at + 1;
            assert(records@ =~= self.records@.take(at as int));
        }
        assert(records@ =~= self.records@);
        Snapshot { overflow_count: self.overflow_count, records }
    }
}

/// A sample of an earlier recording is not part of a later one, whether or not
/// recordings were stopped and started in between.
pub proof fn law_old_samples_cannot_be_published(trace: Trace, sample: TimingSample)
    requires
        trace.wf(),
        sample.epoch < trace.epoch,
    ensures
        trace.active_epoch != Some(sample.epoch),
{
}

/// A sample is taken by the recording that it was begun in and by no other.
pub proof fn law_samples_stay_in_their_recording(trace: Trace, sample: TimingSample)
    ensures
        trace.takes(sample) <==> trace.active_epoch is Some && trace.active_epoch->0
            == sample.epoch,
        trace.active_epoch is None ==> !trace.takes(sample),
{
}

/// Nothing that was taken is lost without being counted: with each record either the
/// records or the losses grow by one, up to 65536 records, and what was recorded before
/// stays as it is.
pub proof fn law_records_are_kept_or_counted(before: Trace, after: Trace, taken: bool, i: int)
    requires
        noted(before, after, taken),
        before.wf(),
        before.overflow_count < u64::MAX,
    ensures
        after.records@.len() + after.overflow_count == before.records@.len()
            + before.overflow_count + (if taken {
            1int
        } else {
            0
        }),
        after.records@.len() <= 65_536,
        taken && before.records@.len() < 65_536 ==> after.overflow_count == before.overflow_count,
        0 <= i < before.records@.len() ==> after.records@[i] == before.records@[i],
        after.epoch == before.epoch,
        after.active_epoch == before.active_epoch,
{
    if taken && before.records@.len() < MAX_RECORDS && 0 <= i < before.records@.len() {
        assert(after.records@.drop_last()[i] == after.records@[i]);
    }
}

} // verus!
