use url_watch::decode::{decode, document_id, is_self_authored, observe_raw, DecodeError, FieldValue, RawRecord};
use url_watch::engine::{observe, SharedRecord, Timestamp, WatcherState};

fn ts(seconds: i64) -> Timestamp {
    Timestamp { seconds, nanos: 0 }
}

fn rec(id: Option<&str>, url: &str, seconds: i64) -> SharedRecord {
    SharedRecord {
        id: id.map(|s| s.to_string()),
        url: url.to_string(),
        created_at: ts(seconds),
        expires_at: None,
    }
}

fn raw(id: Option<&str>, fields: Vec<(&str, FieldValue)>) -> RawRecord {
    RawRecord {
        id: id.map(|s| s.to_string()),
        fields: fields.into_iter().map(|(k, v)| (k.to_string(), v)).collect(),
    }
}

#[test]
fn scenario_with_ids() {
    let mut state = WatcherState::new();
    assert!(!state.is_initialized());
    let a = rec(Some("a"), "http://x", 1);
    assert!(observe(a.clone(), &mut state).is_none());
    assert!(state.is_initialized());
    assert_eq!(state.last_seen_key(), Some("a".to_string()));
    assert!(observe(a, &mut state).is_none());
    let b = rec(Some("b"), "http://y", 2);
    let act = observe(b, &mut state).expect("a new id asks for an action");
    assert_eq!(act.url, "http://y");
    assert_eq!(state.last_seen_key(), Some("b".to_string()));
}

#[test]
fn scenario_without_ids_same_url_is_duplicate() {
    let mut state = WatcherState::new();
    assert!(observe(rec(None, "http://x", 1), &mut state).is_none());
    assert_eq!(state.last_seen_key(), Some("http://x".to_string()));
    assert!(observe(rec(None, "http://x", 2), &mut state).is_none());
    let act = observe(rec(None, "http://z", 3), &mut state).unwrap();
    assert_eq!(act.url, "http://z");
}

#[test]
fn distinct_keys_act_once_after_the_first() {
    let mut state = WatcherState::new();
    let records = vec![
        rec(Some("1"), "http://a", 1),
        rec(Some("2"), "http://b", 2),
        rec(Some("3"), "http://c", 3),
        rec(None, "http://d", 4),
    ];
    let mut urls = Vec::new();
    for r in records {
        if let Some(a) = observe(r, &mut state) {
            urls.push(a.url);
        }
    }
    assert_eq!(urls, vec!["http://b", "http://c", "http://d"]);
}

#[test]
fn repeated_key_is_silent() {
    let mut state = WatcherState::new();
    observe(rec(Some("a"), "http://x", 1), &mut state);
    let b = rec(Some("b"), "http://y", 2);
    assert!(observe(b.clone(), &mut state).is_some());
    for _ in 0..5 {
        assert!(observe(b.clone(), &mut state).is_none());
    }
    // A write-back changes the document but not its id.
    let mut echoed = b.clone();
    echoed.expires_at = Some(ts(2 + 259200));
    assert!(observe(echoed, &mut state).is_none());
    assert_eq!(state.last_seen_key(), Some("b".to_string()));
}

#[test]
fn id_takes_precedence_over_url() {
    let r = rec(Some("doc"), "http://x", 1);
    assert_eq!(r.key(), "doc");
    assert_eq!(rec(None, "http://x", 1).key(), "http://x");
    let mut state = WatcherState::new();
    observe(rec(Some("doc1"), "http://same", 1), &mut state);
    let act = observe(rec(Some("doc2"), "http://same", 2), &mut state).unwrap();
    assert_eq!(act.url, "http://same");
}

#[test]
fn decode_failure_leaves_state() {
    let mut state = WatcherState::new();
    let bad = raw(Some("z"), vec![("timestamp", FieldValue::Time(ts(1)))]);
    assert_eq!(observe_raw(&bad, &mut state).unwrap_err(), DecodeError::MissingUrl);
    assert!(!state.is_initialized());

    let first = raw(
        Some("a"),
        vec![("url", FieldValue::Text("http://x".to_string())), ("timestamp", FieldValue::Time(ts(1)))],
    );
    assert!(observe_raw(&first, &mut state).unwrap().is_none());
    assert_eq!(state.last_seen_key(), Some("a".to_string()));

    let no_time = raw(Some("q"), vec![("url", FieldValue::Text("http://q".to_string()))]);
    assert_eq!(observe_raw(&no_time, &mut state).unwrap_err(), DecodeError::MissingTimestamp);
    assert_eq!(state.last_seen_key(), Some("a".to_string()));

    let next = raw(
        Some("b"),
        vec![("timestamp", FieldValue::Time(ts(2))), ("url", FieldValue::Text("http://y".to_string()))],
    );
    let act = observe_raw(&next, &mut state).unwrap().expect("evaluated against the prior state");
    assert_eq!(act.url, "http://y");
}

#[test]
fn decode_reads_optional_fields() {
    let r = raw(
        None,
        vec![
            ("url", FieldValue::Text("http://x".to_string())),
            ("timestamp", FieldValue::Time(ts(10))),
            ("expired_at", FieldValue::Time(ts(20))),
        ],
    );
    let d = decode(&r).unwrap();
    assert_eq!(d.id, None);
    assert_eq!(d.url, "http://x");
    assert_eq!(d.created_at, ts(10));
    assert_eq!(d.expires_at, Some(ts(20)));
    assert!(is_self_authored(&r));

    let plain = raw(
        Some("id7"),
        vec![("url", FieldValue::Text("http://x".to_string())), ("timestamp", FieldValue::Time(ts(10)))],
    );
    let d = decode(&plain).unwrap();
    assert_eq!(d.id, Some("id7".to_string()));
    assert_eq!(d.expires_at, None);
    assert!(!is_self_authored(&plain));
}

#[test]
fn decode_rejects_wrong_kinds() {
    let url_not_text = raw(
        None,
        vec![("url", FieldValue::Other), ("timestamp", FieldValue::Time(ts(1)))],
    );
    assert_eq!(decode(&url_not_text).unwrap_err(), DecodeError::MissingUrl);
    let time_not_time = raw(
        None,
        vec![("url", FieldValue::Text("u".to_string())), ("timestamp", FieldValue::Text("1".to_string()))],
    );
    assert_eq!(decode(&time_not_time).unwrap_err(), DecodeError::MissingTimestamp);
    let empty = raw(None, vec![]);
    assert_eq!(decode(&empty).unwrap_err(), DecodeError::MissingUrl);
}

#[test]
fn document_id_is_last_segment() {
    assert_eq!(document_id("projects/p/databases/(default)/documents/shared_urls/abc123"), "abc123");
    assert_eq!(document_id("plain"), "plain");
    assert_eq!(document_id("trailing/"), "");
    assert_eq!(document_id(""), "");
}
