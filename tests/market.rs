use stocks_dashboard::market::FetchTracker;
use stocks_dashboard::time_frame::TimeFrame;

#[test]
fn superseded_results_are_dropped() {
    let mut t: FetchTracker<Vec<u32>> = FetchTracker::new();
    let first = t.request("TSLA".to_string(), TimeFrame::OneMonth, None).unwrap();
    let second = t.request("AAPL".to_string(), TimeFrame::OneMonth, None).unwrap();
    assert_eq!(first.id, 1);
    assert_eq!(second.id, 2);
    assert_eq!(second.symbol, "AAPL");
    assert!(!t.complete(first.id, Some(vec![1, 2])));
    assert_eq!(t.data, None);
    assert!(t.complete(second.id, Some(vec![3])));
    assert_eq!(t.data, Some(vec![3]));
}

#[test]
fn failed_fetch_shows_no_data() {
    let mut t: FetchTracker<u8> = FetchTracker::new();
    let q = t.request("TSLA".to_string(), TimeFrame::Max, None).unwrap();
    assert!(t.complete(q.id, Some(1)));
    let q = t.request("TSLA".to_string(), TimeFrame::FiveDays, None).unwrap();
    assert_eq!(t.data, None);
    assert!(t.complete(q.id, None));
    assert_eq!(t.data, None);
    assert!(!t.complete(0, Some(9)));
}
