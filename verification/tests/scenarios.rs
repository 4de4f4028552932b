use bootstrap_cache::machine::{Action, Event, Machine, State};
use bootstrap_cache::slot::CacheSlot;

const DAY: u64 = 60 * 60 * 24;

fn parsed(text: &str) -> serde_json::Value {
    serde_json::from_str::<serde_json::Value>(text).unwrap()
}

fn finish(m: Machine) -> serde_json::Value {
    match m.state {
        State::Done { doc, .. } => doc,
        _ => panic!("expected success"),
    }
}

/// Slot `dns.json`, source serves `{"a":1}`, no prior cache: the first call
/// fetches and commits, a second call within the same second reads the
/// cached bytes back and returns the same value with no network call.
#[test]
fn dns_json_cold_then_warm() {
    let now: u64 = 1_700_000_000;
    let body = b"{\"a\":1}".to_vec();
    let slot = CacheSlot::new("dns.json");
    assert_eq!(slot.file_name, "dns.json");
    assert_eq!(slot.tmp_name, "dns.json.tmp");

    // First call: the slot is absent, the source is fetched and committed.
    let m = Machine::new(now);
    let (m, a) = m.step(Event::MetadataAbsent);
    assert!(matches!(a, Action::Fetch));
    let (m, a) = m.step(Event::FetchOk { body: body.clone() });
    let committed = match a {
        Action::WriteTemp { bytes } => bytes,
        _ => panic!("expected a temporary write"),
    };
    let (m, a) = m.step(Event::WriteOk);
    assert!(matches!(a, Action::Rename));
    let (m, _) = m.step(Event::RenameOk);
    let first = finish(m);
    assert_eq!(first, parsed("{\"a\":1}"));

    // Second call in the same second: the slot now exists with the bytes
    // just committed, so the run reads them back and never fetches.
    let m = Machine::new(now);
    let (m, a) = m.step(Event::MetadataFound { created_secs: now });
    assert!(matches!(a, Action::ReadFile));
    let (m, a) = m.step(Event::ReadOk { bytes: committed });
    assert!(matches!(a, Action::Halt));
    let second = finish(m);
    assert_eq!(second, first);
}

/// A slot created eight days ago holds `{"a":1}`; the source now serves
/// `{"a":2}`. The run refreshes: the result is `{"a":2}` and the bytes
/// committed to the final path are exactly `{"a":2}`.
#[test]
fn eight_day_old_slot_is_replaced() {
    let now: u64 = 1_700_000_000;
    let created = now - 8 * DAY;
    let m = Machine::new(now);
    let (m, a) = m.step(Event::MetadataFound {
        created_secs: created,
    });
    // The stale contents are never read, valid JSON or not.
    assert!(matches!(a, Action::Fetch));
    let (m, a) = m.step(Event::FetchOk {
        body: b"{\"a\":2}".to_vec(),
    });
    match &a {
        Action::WriteTemp { bytes } => assert_eq!(bytes, &b"{\"a\":2}".to_vec()),
        _ => panic!("expected a temporary write"),
    }
    let (m, a) = m.step(Event::WriteOk);
    assert!(matches!(a, Action::Rename));
    let (m, a) = m.step(Event::RenameOk);
    assert!(matches!(a, Action::Halt));
    assert_eq!(finish(m), parsed("{\"a\":2}"));
}

#[test]
fn slot_names_keep_the_filename() {
    let slot = CacheSlot::new("asn.json");
    assert_eq!(slot.file_name, "asn.json");
    assert_eq!(slot.tmp_name, "asn.json.tmp");
    let empty = CacheSlot::new("");
    assert_eq!(empty.file_name, "");
    assert_eq!(empty.tmp_name, ".tmp");
}
