use keyed_signal::cell::{Dispatch, KeyedSignal};
use keyed_signal::lookup::TimeZoneKey;

fn fresh() -> KeyedSignal<String, String> {
    KeyedSignal::new()
}

#[test]
fn absence_before_first_resolution() {
    let mut cell = fresh();
    assert_eq!(cell.get(), None);
    let dispatch = cell.on_key("A".to_string());
    assert!(dispatch.is_some());
    // A lookup was dispatched but nothing has resolved yet.
    assert_eq!(cell.get(), None);
}

#[test]
fn memoization_unchanged_key_dispatches_once() {
    let mut cell = fresh();
    let mut dispatched: usize = 0;
    for _ in 0..5 {
        if cell.on_key("same".to_string()).is_some() {
            dispatched += 1;
        }
    }
    assert_eq!(dispatched, 1);
}

#[test]
fn changed_key_dispatches_again() {
    let mut cell = fresh();
    let first = cell.on_key("A".to_string()).expect("first key dispatches");
    let none = cell.on_key("A".to_string());
    assert!(none.is_none());
    let second = cell.on_key("B".to_string()).expect("changed key dispatches");
    assert_eq!(first.key, "A".to_string());
    assert_eq!(second.key, "B".to_string());
    assert!(second.generation > first.generation);
}

#[test]
fn resolution_publishes_value() {
    let mut cell = fresh();
    let d = cell.on_key("A".to_string()).unwrap();
    cell.on_resolve(d.generation, "1".to_string());
    assert_eq!(cell.get(), Some("1".to_string()));
}

#[test]
fn last_write_wins_stale_completes_late() {
    let mut cell = fresh();
    let d1 = cell.on_key("k1".to_string()).unwrap();
    let d2 = cell.on_key("k2".to_string()).unwrap();
    // The newer lookup completes first; the older one completes late.
    cell.on_resolve(d2.generation, "v2".to_string());
    cell.on_resolve(d1.generation, "v1".to_string());
    assert_eq!(cell.get(), Some("v2".to_string()));
}

#[test]
fn last_write_wins_in_completion_order() {
    let mut cell = fresh();
    let d1 = cell.on_key("k1".to_string()).unwrap();
    let d2 = cell.on_key("k2".to_string()).unwrap();
    cell.on_resolve(d1.generation, "v1".to_string());
    cell.on_resolve(d2.generation, "v2".to_string());
    assert_eq!(cell.get(), Some("v2".to_string()));
}

#[test]
fn burst_settles_on_latest_dispatch() {
    let mut cell = fresh();
    let d1 = cell.on_key("k1".to_string()).unwrap();
    let d2 = cell.on_key("k2".to_string()).unwrap();
    let d3 = cell.on_key("k3".to_string()).unwrap();
    // The burst's completions arrive out of order; only the latest
    // dispatch's result lands.
    cell.on_resolve(d3.generation, "v3".to_string());
    cell.on_resolve(d1.generation, "v1".to_string());
    cell.on_resolve(d2.generation, "v2".to_string());
    assert_eq!(cell.get(), Some("v3".to_string()));
}

#[test]
fn no_write_after_teardown() {
    let mut cell = fresh();
    let d = cell.on_key("A".to_string()).unwrap();
    cell.teardown();
    // The orphaned lookup completes after the scope ended: silently dropped.
    cell.on_resolve(d.generation, "late".to_string());
    assert_eq!(cell.get(), None);
}

#[test]
fn teardown_keeps_last_value() {
    let mut cell = fresh();
    let d = cell.on_key("A".to_string()).unwrap();
    cell.on_resolve(d.generation, "1".to_string());
    cell.teardown();
    assert_eq!(cell.get(), Some("1".to_string()));
    assert!(cell.on_key("B".to_string()).is_none());
}

#[test]
fn read_key_idempotent() {
    let mut cell = fresh();
    cell.on_key("A".to_string());
    let k1 = cell.get_key();
    let k2 = cell.get_key();
    let k3 = cell.get_key();
    assert_eq!(k1, "A".to_string());
    assert_eq!(k1, k2);
    assert_eq!(k2, k3);
    // Reading the key dispatched nothing: re-presenting it is still a no-op.
    assert!(cell.on_key("A".to_string()).is_none());
}

#[test]
fn key_before_first_dispatch_is_none() {
    let cell = fresh();
    assert_eq!(cell.key(), None);
}

#[test]
fn round_trip_scenario() {
    let mut cell = fresh();
    // Key source returns "A": a lookup is dispatched with "A".
    let da: Dispatch<String> = cell.on_key("A".to_string()).unwrap();
    assert_eq!(da.key, "A".to_string());
    // It resolves (after a delay) to "1".
    cell.on_resolve(da.generation, "1".to_string());
    assert_eq!(cell.get(), Some("1".to_string()));
    // Key source returns "B" before a second "A" lookup is in flight; a
    // second lookup is dispatched with "B" and resolves immediately.
    let db = cell.on_key("B".to_string()).unwrap();
    assert_eq!(db.key, "B".to_string());
    cell.on_resolve(db.generation, "2".to_string());
    assert_eq!(cell.get(), Some("2".to_string()));
    // The stale "A" lookup resolving afterwards changes nothing.
    cell.on_resolve(da.generation, "1".to_string());
    assert_eq!(cell.get(), Some("2".to_string()));
}

#[test]
fn sink_shape_multiple_writes_same_generation() {
    let mut cell = fresh();
    let d = cell.on_key("A".to_string()).unwrap();
    // A sink-shaped lookup may publish progressively; each write of the
    // current generation lands.
    cell.on_resolve(d.generation, "partial".to_string());
    assert_eq!(cell.get(), Some("partial".to_string()));
    cell.on_resolve(d.generation, "full".to_string());
    assert_eq!(cell.get(), Some("full".to_string()));
}

#[test]
fn can_advance_on_fresh_cell() {
    let cell = fresh();
    assert!(cell.can_advance());
}

#[test]
fn timezone_key_equality_drives_dispatch() {
    let mut cell: KeyedSignal<TimeZoneKey, String> = KeyedSignal::new();
    let bogota = TimeZoneKey::new("America".to_string(), "Bogota".to_string());
    let bogota_again = TimeZoneKey::new("America".to_string(), "Bogota".to_string());
    let london = TimeZoneKey::new("Europe".to_string(), "London".to_string());
    assert!(cell.on_key(bogota).is_some());
    assert!(cell.on_key(bogota_again).is_none());
    let d = cell.on_key(london).expect("different timezone dispatches");
    assert_eq!(d.key.area, "Europe".to_string());
    assert_eq!(d.key.location, "London".to_string());
}
