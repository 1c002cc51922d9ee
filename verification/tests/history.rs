use virus_scanner::history::ScanHistory;
use virus_scanner::virus_total::{ScanResult, ScanStatus};

fn record(path: &str, date: u64) -> ScanResult {
    ScanResult {
        file_path: path.to_string(),
        file_name: "f".to_string(),
        file_size: 1,
        file_hash: "00".to_string(),
        scan_date: date,
        status: ScanStatus::Clean,
        detection_count: Some(0),
        total_engines: Some(1),
        permalink: None,
        vendor_results: None,
    }
}

fn paths(history: &ScanHistory) -> Vec<String> {
    history.to_vec().into_iter().map(|r| r.file_path).collect()
}

#[test]
fn history_keeps_insertion_order() {
    let mut history = ScanHistory::new(3);
    history.push(record("a", 1));
    history.push(record("b", 2));
    assert_eq!(paths(&history), vec!["a", "b"]);
    assert_eq!(history.len(), 2);
    assert_eq!(history.limit(), 3);
}

#[test]
fn full_history_evicts_the_oldest() {
    let mut history = ScanHistory::new(3);
    for (i, path) in ["a", "b", "c", "d", "e"].iter().enumerate() {
        history.push(record(path, i as u64));
        assert!(history.len() <= 3);
    }
    assert_eq!(paths(&history), vec!["c", "d", "e"]);
}

#[test]
fn history_without_room_stays_empty() {
    let mut history = ScanHistory::new(0);
    history.push(record("a", 1));
    assert_eq!(history.len(), 0);
}

#[test]
fn history_of_one_keeps_the_newest() {
    let mut history = ScanHistory::new(1);
    history.push(record("a", 1));
    history.push(record("b", 2));
    assert_eq!(paths(&history), vec!["b"]);
}

#[test]
fn smaller_limit_drops_the_oldest() {
    let mut history = ScanHistory::new(5);
    for path in ["a", "b", "c", "d"] {
        history.push(record(path, 0));
    }
    history.set_limit(2);
    assert_eq!(paths(&history), vec!["c", "d"]);
    assert_eq!(history.limit(), 2);
    history.set_limit(10);
    assert_eq!(paths(&history), vec!["c", "d"]);
    history.push(record("e", 0));
    assert_eq!(paths(&history), vec!["c", "d", "e"]);
}

#[test]
fn replace_keeps_the_newest() {
    let mut history = ScanHistory::new(2);
    history.push(record("old", 0));
    history.replace(vec![record("a", 1), record("b", 2), record("c", 3)]);
    assert_eq!(paths(&history), vec!["b", "c"]);
    history.replace(vec![record("z", 9)]);
    assert_eq!(paths(&history), vec!["z"]);
}

#[test]
fn clear_drops_everything() {
    let mut history = ScanHistory::new(2);
    history.push(record("a", 1));
    history.clear();
    assert_eq!(history.len(), 0);
    assert_eq!(history.limit(), 2);
}

#[test]
fn last_scan_is_the_latest_of_the_path() {
    let mut history = ScanHistory::new(10);
    history.push(record("a", 50));
    history.push(record("b", 70));
    history.push(record("a", 90));
    history.push(record("a", 60));
    assert_eq!(history.last_scan_of("a"), Some(90));
    assert_eq!(history.last_scan_of("b"), Some(70));
    assert_eq!(history.last_scan_of("c"), None);
}
