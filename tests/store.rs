use technical_indicator_calculator::store::{PointStore, StoredPoint};

fn point(fp: &str, time: i64, value: f64) -> StoredPoint<f64> {
    StoredPoint { fingerprint: fp.to_string(), time, value }
}

#[test]
fn upsert_replaces_value_of_existing_point() {
    let fp = "BTCUSDT:1h:SMA:{\"period\":3}";
    let mut batch = vec![point(fp, 2, 2.0), point(fp, 3, 3.0), point(fp, 4, 4.0), point(fp, 5, 5.0)];
    let mut store = PointStore::new();
    store.upsert_batch(&batch);
    assert_eq!(store.read(fp, 4), Some(4.0));
    batch[2].value = 42.0;
    store.upsert_batch(&batch);
    assert_eq!(store.read(fp, 4), Some(42.0));
    assert_eq!(store.read(fp, 3), Some(3.0));
}

#[test]
fn upserting_twice_equals_once() {
    let batch = vec![point("a", 1, 1.0), point("b", 1, 2.0), point("a", 2, 3.0)];
    let mut once = PointStore::new();
    once.upsert_batch(&batch);
    let mut twice = PointStore::new();
    twice.upsert_batch(&batch);
    twice.upsert_batch(&batch);
    for (fp, t) in [("a", 1), ("b", 1), ("a", 2), ("b", 2)] {
        assert_eq!(once.read(fp, t), twice.read(fp, t));
    }
}

#[test]
fn last_write_of_a_key_in_a_batch_wins() {
    let batch = vec![point("a", 1, 1.0), point("a", 1, 9.0)];
    let mut store = PointStore::new();
    store.upsert_batch(&batch);
    assert_eq!(store.read("a", 1), Some(9.0));
    assert_eq!(store.read("a", 2), None);
}

#[test]
fn empty_batch_is_noop() {
    let mut store: PointStore<f64> = PointStore::new();
    store.upsert_batch(&vec![point("a", 1, 1.0)]);
    store.upsert_batch(&vec![]);
    assert_eq!(store.read("a", 1), Some(1.0));
}
