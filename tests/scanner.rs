use state_bridge_relay::scanner::{BlockRange, BlockScanner, ScanError};
use state_bridge_relay::types::LogEvent;

fn log_at(block_number: u64) -> LogEvent {
    LogEvent { block_number, contract_address: [7u8; 20], topics: vec![[1u8; 32]], data: vec![] }
}

fn scanner_at(cursor: u64, window: u64, offset: u64) -> BlockScanner {
    BlockScanner::new_latest(cursor, window).with_offset(offset)
}

#[test]
fn windowed_scan_then_no_progress() {
    let mut s = scanner_at(1000, 1000, 5);
    let range = s.plan(2005).expect("progress is possible");
    assert_eq!(range, BlockRange { from: 1001, to: 2000 });
    let logs = s.finish(range, Ok(vec![log_at(1001), log_at(1500), log_at(2000)])).unwrap();
    assert_eq!(logs.len(), 3);
    assert_eq!(s.last_synced_block, 2000);
    assert_eq!(s.plan(2005), None);
}

#[test]
fn range_is_capped_by_window() {
    let s = scanner_at(100, 10, 0);
    assert_eq!(s.plan(1000), Some(BlockRange { from: 101, to: 110 }));
}

#[test]
fn range_is_capped_by_confirmed_height() {
    let s = scanner_at(100, 1000, 3);
    assert_eq!(s.plan(150), Some(BlockRange { from: 101, to: 147 }));
}

#[test]
fn head_below_offset_gives_nothing() {
    let s = scanner_at(0, 10, 5);
    assert_eq!(s.plan(3), None);
}

#[test]
fn consecutive_scans_are_contiguous() {
    let mut s = scanner_at(0, 50, 0);
    let r1 = s.plan(120).unwrap();
    s.finish(r1, Ok(vec![])).unwrap();
    let r2 = s.plan(120).unwrap();
    s.finish(r2, Ok(vec![])).unwrap();
    let r3 = s.plan(120).unwrap();
    assert_eq!(r1, BlockRange { from: 1, to: 50 });
    assert_eq!(r2.from, r1.to + 1);
    assert_eq!(r3.from, r2.to + 1);
    assert_eq!(r3, BlockRange { from: 101, to: 120 });
}

#[test]
fn fetch_failure_keeps_cursor() {
    let mut s = scanner_at(10, 5, 0);
    let r = s.plan(100).unwrap();
    assert_eq!(s.finish(r, Err(())).unwrap_err(), ScanError::FetchFailed);
    assert_eq!(s.last_synced_block, 10);
    assert_eq!(s.plan(100), Some(r));
}

#[test]
fn log_beyond_range_is_refused() {
    let mut s = scanner_at(10, 5, 0);
    let r = s.plan(100).unwrap();
    assert_eq!(s.finish(r, Ok(vec![log_at(16)])).unwrap_err(), ScanError::OutOfRange);
    assert_eq!(s.last_synced_block, 10);
}

#[test]
fn unordered_logs_are_refused() {
    let mut s = scanner_at(10, 5, 0);
    let r = s.plan(100).unwrap();
    assert_eq!(s.finish(r, Ok(vec![log_at(13), log_at(12)])).unwrap_err(), ScanError::Unordered);
    assert_eq!(s.last_synced_block, 10);
}

#[test]
fn next_without_progress_is_empty_success() {
    let mut s = scanner_at(2000, 1000, 5);
    let out = s.next(2005, Some(Ok(vec![log_at(2001)]))).unwrap();
    assert!(out.is_empty());
    assert_eq!(s.last_synced_block, 2000);
    assert!(s.next(2005, None).unwrap().is_empty());
}

#[test]
fn next_scans_the_planned_range() {
    let mut s = scanner_at(1000, 1000, 5);
    let out = s.next(2005, Some(Ok(vec![log_at(1001), log_at(2000)]))).unwrap();
    assert_eq!(out.len(), 2);
    assert_eq!(s.last_synced_block, 2000);
    assert!(s.next(2005, None).unwrap().is_empty());
    assert_eq!(s.next(2010, None).unwrap_err(), ScanError::FetchFailed);
    assert_eq!(s.last_synced_block, 2000);
}
