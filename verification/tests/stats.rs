use nostail::stats::{KindStats, StatsTable};

#[test]
fn counter_starts_at_zero() {
    assert_eq!(KindStats::default().seen, 0);
}

#[test]
fn seen_counts_and_returns_the_total() {
    let mut stats = KindStats::default();
    assert_eq!(stats.seen(), 1);
    assert_eq!(stats.seen(), 2);
    assert_eq!(stats.seen(), 3);
    assert_eq!(stats.seen, 3);
}

#[test]
fn seen_reaches_the_maximum() {
    let mut stats = KindStats { seen: u64::MAX - 1 };
    assert_eq!(stats.seen(), u64::MAX);
}

#[test]
fn counter_as_text() {
    assert_eq!(KindStats { seen: 0 }.to_string(), "seen: 0");
    assert_eq!(KindStats { seen: 42 }.to_string(), "seen: 42");
    assert_eq!(KindStats { seen: u64::MAX }.to_string(), "seen: 18446744073709551615");
}

#[test]
fn new_table_is_empty() {
    let table = StatsTable::new();
    assert!(table.snapshot().is_empty());
    assert_eq!(table.seen_count(0), 0);
    assert_eq!(table.seen_count(1), 0);
}

#[test]
fn record_creates_then_increments() {
    let mut table = StatsTable::new();
    table.record(7);
    assert_eq!(table.seen_count(7), 1);
    table.record(7);
    table.record(7);
    assert_eq!(table.seen_count(7), 3);
    assert_eq!(table.seen_count(8), 0);
    let entries = table.snapshot();
    assert_eq!(entries.len(), 1);
    assert_eq!(entries[0].0, 7);
    assert_eq!(entries[0].1.seen, 3);
}

#[test]
fn snapshot_is_ascending_whatever_the_arrival_order() {
    let orders: [[u64; 3]; 6] =
        [[5, 1, 3], [5, 3, 1], [1, 5, 3], [1, 3, 5], [3, 1, 5], [3, 5, 1]];
    for order in orders {
        let mut table = StatsTable::new();
        for kind in order {
            table.record(kind);
        }
        let kinds: Vec<u64> = table.snapshot().iter().map(|entry| entry.0).collect();
        assert_eq!(kinds, vec![1, 3, 5]);
    }
}

#[test]
fn snapshot_lists_every_counter_once() {
    let mut table = StatsTable::new();
    for kind in [30023u64, 1, 0, 1, u64::MAX, 1, 0, 7] {
        table.record(kind);
    }
    let entries: Vec<(u64, u64)> =
        table.snapshot().iter().map(|entry| (entry.0, entry.1.seen)).collect();
    assert_eq!(entries, vec![(0, 2), (1, 3), (7, 1), (30023, 1), (u64::MAX, 1)]);
}

#[test]
fn snapshot_does_not_change_the_table() {
    let mut table = StatsTable::new();
    table.record(2);
    table.record(1);
    let first: Vec<(u64, u64)> =
        table.snapshot().iter().map(|entry| (entry.0, entry.1.seen)).collect();
    let second: Vec<(u64, u64)> =
        table.snapshot().iter().map(|entry| (entry.0, entry.1.seen)).collect();
    assert_eq!(first, second);
    assert_eq!(table.seen_count(1), 1);
    assert_eq!(table.seen_count(2), 1);
}
