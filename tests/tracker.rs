use presence_freq::response::{extract, PresenceBlock, PresenceEvent, SyncResponse};
use presence_freq::sync_loop::{build_sync_url, Config, SyncLoop};
use presence_freq::text::{push_decimal, push_signed, push_signed_padded};
use presence_freq::tracker::{record_line, PresenceFreq};

fn response(next_batch: &str, senders: &[&str]) -> SyncResponse {
    SyncResponse {
        next_batch: next_batch.to_string(),
        presence: PresenceBlock {
            events: senders
                .iter()
                .map(|s| PresenceEvent { sender: s.to_string() })
                .collect(),
        },
    }
}

#[test]
fn extract_counts_events_and_takes_cursor() {
    let (count, cursor) = extract(&response("s72594_4483_1934", &[]));
    assert_eq!(count, 0);
    assert_eq!(cursor, "s72594_4483_1934");
    let (count, cursor) = extract(&response("c2", &["@a:x", "@b:x", "@c:x"]));
    assert_eq!(count, 3);
    assert_eq!(cursor, "c2");
}

#[test]
fn first_observation_reports_count_only() {
    let mut t = PresenceFreq::with_file(true);
    let e = t.update(5, 1000).unwrap();
    assert_eq!(e.console, "Got presence 5 event(s)");
    assert!(e.record.is_none());
    assert_eq!(t.last_presence(), Some(1000));
}

#[test]
fn elapsed_is_difference_of_times() {
    let mut t = PresenceFreq::with_file(true);
    t.update(3, 10_000);
    let e = t.update(7, 12_345).unwrap();
    assert_eq!(e.console, "Got presence 7 event(s):   2345ms since last presence");
    assert_eq!(e.record.as_deref(), Some("12345 2345 7\n"));
    assert_eq!(t.last_presence(), Some(12_345));
}

#[test]
fn elapsed_zero_when_bursts_coincide() {
    let mut t = PresenceFreq::with_file(true);
    t.update(1, 500);
    let e = t.update(2, 500).unwrap();
    assert_eq!(e.console, "Got presence 2 event(s):      0ms since last presence");
    assert_eq!(e.record.as_deref(), Some("500 0 2\n"));
}

#[test]
fn elapsed_negative_after_clock_step_back() {
    let mut t = PresenceFreq::with_file(true);
    t.update(1, 2000);
    let e = t.update(1, 1750).unwrap();
    assert_eq!(e.console, "Got presence 1 event(s):   -250ms since last presence");
    assert_eq!(e.record.as_deref(), Some("1750 -250 1\n"));
}

#[test]
fn wide_elapsed_is_not_truncated() {
    let mut t = PresenceFreq::with_file(false);
    t.update(4, 0);
    let e = t.update(4, 12_345_678).unwrap();
    assert_eq!(e.console, "Got presence 4 event(s): 12345678ms since last presence");
    assert!(e.record.is_none());
}

#[test]
fn no_record_without_file() {
    let mut t = PresenceFreq::with_file(false);
    t.update(3, 1000);
    let e = t.update(7, 4000).unwrap();
    assert_eq!(e.console, "Got presence 7 event(s):   3000ms since last presence");
    assert!(e.record.is_none());
}

#[test]
fn zero_count_is_no_op() {
    let mut fresh = PresenceFreq::with_file(true);
    assert!(fresh.update(0, 1000).is_none());
    assert_eq!(fresh.last_presence(), None);
    let mut t = PresenceFreq::with_file(true);
    t.update(2, 1000);
    assert!(t.update(0, 9000).is_none());
    assert_eq!(t.last_presence(), Some(1000));
    let e = t.update(1, 4000).unwrap();
    assert_eq!(e.record.as_deref(), Some("4000 3000 1\n"));
}

#[test]
fn handle_response_without_events_reads_nothing() {
    let mut t = PresenceFreq::with_file(true);
    assert!(t.handle_response(&response("c1", &[])).is_none());
    assert_eq!(t.last_presence(), None);
}

#[test]
fn handle_response_with_events_uses_clock() {
    let mut t = PresenceFreq::with_file(true);
    let e = t.handle_response(&response("c1", &["@a:x", "@b:x"])).unwrap();
    assert_eq!(e.console, "Got presence 2 event(s)");
    let first = t.last_presence().unwrap();
    assert!(first > 1_600_000_000_000);
    let e = t.handle_response(&response("c2", &["@a:x"])).unwrap();
    let second = t.last_presence().unwrap();
    let expected = format!("{} {} 1\n", second, second - first);
    assert_eq!(e.record.as_deref(), Some(expected.as_str()));
}

#[test]
fn record_line_is_identical_for_identical_inputs() {
    let a = record_line(4500, 3500, 1);
    let b = record_line(4500, 3500, 1);
    assert_eq!(a, "4500 3500 1\n");
    assert_eq!(a, b);
    assert_eq!(record_line(0, 0, 0), "0 0 0\n");
    assert_eq!(
        record_line(i64::MAX, i128::MIN, usize::MAX),
        format!("{} {} {}\n", i64::MAX, i128::MIN, usize::MAX)
    );
}

#[test]
fn decimal_rendering() {
    let mut s = String::from("x=");
    push_decimal(&mut s, 0);
    assert_eq!(s, "x=0");
    let mut s = String::new();
    push_decimal(&mut s, u128::MAX);
    assert_eq!(s, u128::MAX.to_string());
    let mut s = String::new();
    push_signed(&mut s, -1_000_000_007);
    assert_eq!(s, "-1000000007");
    let mut s = String::new();
    push_signed_padded(&mut s, -7, 6);
    assert_eq!(s, "    -7");
    let mut s = String::new();
    push_signed_padded(&mut s, 123456, 6);
    assert_eq!(s, "123456");
}

#[test]
fn sync_url_with_and_without_cursor() {
    let base = "https://example.org".to_string();
    let token = "tok".to_string();
    assert_eq!(
        build_sync_url(&base, &token, &None),
        "https://example.org/_matrix/client/r0/sync?access_token=tok&timeout=30000"
    );
    assert_eq!(
        build_sync_url(&base, &token, &Some("c1".to_string())),
        "https://example.org/_matrix/client/r0/sync?access_token=tok&since=c1&timeout=30000"
    );
}

#[test]
fn cursor_follows_each_response() {
    let config = Config {
        server_url: "https://h".to_string(),
        access_token: "t".to_string(),
    };
    let mut l = SyncLoop::new(config, false);
    assert!(!l.request_url().contains("since"));
    for (i, batch) in ["a", "b", "c"].iter().enumerate() {
        l.on_response_at(&response(batch, &[]), i as i64);
        assert_eq!(
            l.request_url(),
            format!("https://h/_matrix/client/r0/sync?access_token=t&since={}&timeout=30000", batch)
        );
    }
}

#[test]
fn bootstrap_response_does_not_feed_tracker() {
    let config = Config {
        server_url: "https://h".to_string(),
        access_token: "t".to_string(),
    };
    let mut l = SyncLoop::new(config, true);
    assert!(!l.is_polling());
    assert!(l.on_response_at(&response("c1", &["@a:x"]), 100).is_none());
    assert!(l.is_polling());
    assert_eq!(l.tracker.last_presence(), None);
    assert!(l.on_response(&response("c2", &[])).is_none());
    assert_eq!(l.cursor.as_deref(), Some("c2"));
}

#[test]
fn end_to_end_scenario() {
    let config = Config {
        server_url: "https://example.org".to_string(),
        access_token: "tok".to_string(),
    };
    let mut l = SyncLoop::new(config, true);
    assert_eq!(
        l.request_url(),
        "https://example.org/_matrix/client/r0/sync?access_token=tok&timeout=30000"
    );
    assert!(l.on_response_at(&response("c1", &[]), 0).is_none());
    assert_eq!(l.cursor.as_deref(), Some("c1"));
    assert_eq!(
        l.request_url(),
        "https://example.org/_matrix/client/r0/sync?access_token=tok&since=c1&timeout=30000"
    );
    let e = l.on_response_at(&response("c2", &["@a:x", "@b:x"]), 1000).unwrap();
    assert_eq!(e.console, "Got presence 2 event(s)");
    assert!(e.record.is_none());
    assert_eq!(l.tracker.last_presence(), Some(1000));
    assert_eq!(
        l.request_url(),
        "https://example.org/_matrix/client/r0/sync?access_token=tok&since=c2&timeout=30000"
    );
    let e = l.on_response_at(&response("c3", &["@a:x"]), 4500).unwrap();
    assert_eq!(e.console, "Got presence 1 event(s):   3500ms since last presence");
    assert_eq!(e.record.as_deref(), Some("4500 3500 1\n"));
}
