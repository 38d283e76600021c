use waywire::timings::{TimingRecord, TimingSample, Trace, MAX_RECORDS};

fn record(sequence: u64) -> TimingRecord {
    TimingRecord::HubEnqueue {
        timestamp_nanos: sequence,
        sequence,
        generation: 1,
    }
}

#[test]
fn traces_are_bounded() {
    let mut trace = Trace::new();
    trace.start();
    let sample = trace
        .sample_with(|| Some(1))
        .expect("an active trace should sample");
    for sequence in 0..MAX_RECORDS as u64 + 2 {
        assert!(trace.publish(sample, |_| record(sequence)));
    }
    assert_eq!(trace.records.len(), MAX_RECORDS);
    assert_eq!(trace.overflow_count, 2);
    let snapshot = trace.stop();
    assert_eq!(snapshot.records.len(), MAX_RECORDS);
    assert_eq!(snapshot.overflow_count, 2);
}

#[test]
fn inactive_sampling_skips_clock_builder_and_mutex() {
    let mut trace = Trace::new();
    let mut clock_ran = false;
    assert!(trace
        .sample_with(|| {
            clock_ran = true;
            Some(1)
        })
        .is_none());
    let mut builder_ran = false;
    let sample = TimingSample {
        epoch: 0,
        timestamp_nanos: 1,
    };
    assert!(!trace.publish(sample, |_| {
        builder_ran = true;
        record(0)
    }));
    assert!(!clock_ran && !builder_ran);
}

#[test]
fn sampled_old_epoch_cannot_publish_after_stop_and_start() {
    let mut trace = Trace::new();
    trace.start();
    let old = trace
        .sample_with(|| Some(1))
        .expect("an active trace should sample");
    let _ = trace.stop();
    trace.start();
    let mut builder_ran = false;
    assert!(!trace.publish(old, |_| {
        builder_ran = true;
        record(1)
    }));
    let mut clock_ran = false;
    assert!(!trace.record_in_epoch(
        old,
        || {
            clock_ran = true;
            Some(2)
        },
        |_| record(2)
    ));
    assert!(!clock_ran);
    assert!(!builder_ran);
    assert!(!trace.is_active(old));
    assert!(trace.records.is_empty());
}

#[test]
fn records_join_the_recording_of_their_sample() {
    let mut trace = Trace::new();
    trace.start();
    let sample = trace
        .sample_with(|| Some(1))
        .expect("an active trace should sample");
    assert!(trace.record_in_epoch(sample, || Some(7), record));
    assert_eq!(trace.records.len(), 1);
    assert!(matches!(
        trace.records[0],
        TimingRecord::HubEnqueue {
            timestamp_nanos: 7,
            ..
        }
    ));
    assert!(!trace.record_in_epoch(sample, || None, record));
    assert_eq!(trace.records.len(), 1);
}
