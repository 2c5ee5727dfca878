use rag_patterns::ingest::{
    interval_ms, snapshot_timestamps, sweep_ticks, DataSource, IngestAction, IngestRun,
    IngestStats, BATCH_SIZE,
};

fn drive(snapshots: usize) -> IngestStats {
    let mut run = IngestRun::new(snapshots);
    loop {
        match run.next_action() {
            IngestAction::Embed { first, end } => run.batch_embedded(end - first),
            IngestAction::Upload { .. } => run.upload_done(),
            IngestAction::Finished => return run.stats,
        }
    }
}

#[test]
fn mock_ingest_smoke_counts() {
    let start = 1_000_000_000_000u64;
    let end = start + 3_600_000;
    let ticks = snapshot_timestamps(start, end, 15).unwrap();
    assert_eq!(ticks, vec![start, start + 900_000, start + 1_800_000, start + 2_700_000]);
    let stats = drive(ticks.len());
    assert_eq!(stats.snapshots_created, 4);
    assert_eq!(stats.embeddings_generated, 4);
    assert_eq!(stats.points_uploaded, 4);
}

#[test]
fn empty_range_gives_zero_stats() {
    let ticks = snapshot_timestamps(5_000, 5_000, 15).unwrap();
    assert!(ticks.is_empty());
    let reversed = snapshot_timestamps(9_000, 5_000, 0).unwrap();
    assert!(reversed.is_empty());
    let stats = drive(0);
    assert_eq!(stats, IngestStats::zero());
    assert_eq!(IngestRun::new(0).next_action(), IngestAction::Finished);
}

#[test]
fn zero_interval_on_a_range_is_refused() {
    assert!(snapshot_timestamps(0, 10, 0).is_none());
    assert!(snapshot_timestamps(0, 10, u64::MAX).is_none());
    assert_eq!(interval_ms(15), Some(900_000));
    assert_eq!(interval_ms(u64::MAX), None);
}

#[test]
fn batches_are_one_hundred_wide() {
    let mut run = IngestRun::new(250);
    assert_eq!(BATCH_SIZE, 100);
    assert_eq!(run.next_action(), IngestAction::Embed { first: 0, end: 100 });
    run.batch_embedded(100);
    assert_eq!(run.next_action(), IngestAction::Embed { first: 100, end: 200 });
    run.batch_embedded(100);
    assert_eq!(run.next_action(), IngestAction::Embed { first: 200, end: 250 });
    run.batch_embedded(50);
    assert_eq!(run.point_id, 250);
    assert_eq!(run.next_action(), IngestAction::Upload { points: 250 });
    run.upload_done();
    assert_eq!(run.next_action(), IngestAction::Finished);
    assert_eq!(
        run.stats,
        IngestStats { snapshots_created: 250, embeddings_generated: 250, points_uploaded: 250 }
    );
}

#[test]
fn short_embedding_batch_is_counted_as_returned() {
    let mut run = IngestRun::new(3);
    run.batch_embedded(2);
    assert_eq!(run.next_action(), IngestAction::Upload { points: 2 });
    run.upload_done();
    assert_eq!(
        run.stats,
        IngestStats { snapshots_created: 3, embeddings_generated: 2, points_uploaded: 2 }
    );
}

#[test]
fn nothing_embedded_means_no_upload() {
    let mut run = IngestRun::new(2);
    run.batch_embedded(0);
    assert_eq!(run.next_action(), IngestAction::Finished);
    assert_eq!(run.stats.points_uploaded, 0);
}

#[test]
fn sweep_stops_before_end_and_at_the_top() {
    assert_eq!(sweep_ticks(0, 10, 3), vec![0, 3, 6, 9]);
    assert_eq!(sweep_ticks(0, 9, 3), vec![0, 3, 6]);
    assert_eq!(sweep_ticks(u64::MAX - 1, u64::MAX, 5), vec![u64::MAX - 1]);
}

#[test]
fn data_source_selection() {
    assert_ne!(DataSource::Mock, DataSource::Lmdb);
}
