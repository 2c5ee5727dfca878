use rag_patterns::kv::{keep_present, range_ticks, series_timestamps, KvTable, INTERVAL_3M_MS};

#[test]
fn series_is_oldest_first() {
    let ts = series_timestamps(1_000_000, INTERVAL_3M_MS, 3);
    assert_eq!(ts, vec![1_000_000 - 360_000, 1_000_000 - 180_000, 1_000_000]);
    assert!(series_timestamps(5, 7, 0).is_empty());
    assert_eq!(series_timestamps(5, -2, 3), vec![9, 7, 5]);
}

#[test]
fn range_ticks_include_end() {
    assert_eq!(range_ticks(0, 10, 5), vec![0, 5, 10]);
    assert_eq!(range_ticks(3, 3, 5), vec![3]);
    assert!(range_ticks(10, 0, 5).is_empty());
}

#[test]
fn keep_only_present() {
    let kept = keep_present(&vec![1, 2, 3, 4], &vec![true, false, false, true]);
    assert_eq!(kept, vec![1, 4]);
}

#[test]
fn table_names() {
    assert_eq!(KvTable::Candles3m.name(), "candles_3m");
    assert_eq!(KvTable::Candles4h.name(), "candles_4h");
    assert_eq!(KvTable::Indicators3m.name(), "indicators_3m");
    assert_eq!(KvTable::Indicators4h.name(), "indicators_4h");
}
