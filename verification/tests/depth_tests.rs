use mt5_adapter::depth::{DepthCache, DepthPayload, DepthUpdate};
use mt5_adapter::types::DepthLevel;

fn level(price: u64, qty: u64) -> DepthLevel {
    DepthLevel { price, qty }
}

fn payload(id: u64, bids: Vec<DepthLevel>, asks: Vec<DepthLevel>) -> DepthPayload {
    DepthPayload { last_update_id: id, time: id, bids, asks }
}

fn sorted_book(cache: &DepthCache) -> (Vec<(u64, u64)>, Vec<(u64, u64)>) {
    let (bids, asks) = cache.book();
    let mut b: Vec<(u64, u64)> = bids.iter().map(|l| (l.price, l.qty)).collect();
    let mut a: Vec<(u64, u64)> = asks.iter().map(|l| (l.price, l.qty)).collect();
    b.sort();
    a.sort();
    (b, a)
}

#[test]
fn stale_update_is_rejected() {
    let mut cache = DepthCache::new();
    cache.update(DepthUpdate::Snapshot(payload(5, vec![level(100, 1)], vec![level(200, 2)])));
    assert_eq!(cache.last_update_id, 5);
    let before = sorted_book(&cache);

    // a delta with an older identifier leaves the book unchanged
    cache.update(DepthUpdate::Delta(payload(4, vec![level(100, 9)], vec![])));
    assert_eq!(cache.last_update_id, 5);
    assert_eq!(sorted_book(&cache), before);

    // so does a duplicate of the current identifier
    cache.update(DepthUpdate::Delta(payload(5, vec![level(100, 9)], vec![])));
    assert_eq!(sorted_book(&cache), before);

    // a newer update mutates the book
    cache.update(DepthUpdate::Delta(payload(6, vec![level(100, 9)], vec![])));
    assert_eq!(cache.last_update_id, 6);
    assert_eq!(sorted_book(&cache).0, vec![(100, 9)]);
}

#[test]
fn zero_quantity_removes_level() {
    let mut cache = DepthCache::new();
    cache.update(DepthUpdate::Snapshot(payload(
        1,
        vec![level(100, 1), level(101, 2)],
        vec![level(200, 3)],
    )));
    cache.update(DepthUpdate::Delta(payload(2, vec![level(100, 0)], vec![])));
    let (bids, asks) = sorted_book(&cache);
    assert_eq!(bids, vec![(101, 2)]);
    assert_eq!(asks, vec![(200, 3)]);
}

#[test]
fn delta_before_snapshot_is_discarded() {
    let mut cache = DepthCache::new();
    cache.update(DepthUpdate::Delta(payload(3, vec![level(100, 1)], vec![])));
    assert!(!cache.has_snapshot);
    assert_eq!(cache.book().0.len(), 0);

    // the first snapshot is accepted whatever its identifier
    cache.update(DepthUpdate::Snapshot(payload(1, vec![level(100, 1)], vec![])));
    assert!(cache.has_snapshot);
    assert_eq!(sorted_book(&cache).0, vec![(100, 1)]);
}

#[test]
fn snapshot_replaces_whole_side() {
    let mut cache = DepthCache::new();
    cache.update(DepthUpdate::Snapshot(payload(
        1,
        vec![level(100, 1), level(101, 2)],
        vec![],
    )));
    cache.update(DepthUpdate::Snapshot(payload(2, vec![level(300, 7)], vec![level(400, 8)])));
    let (bids, asks) = sorted_book(&cache);
    assert_eq!(bids, vec![(300, 7)]);
    assert_eq!(asks, vec![(400, 8)]);
    assert_eq!(cache.time, 2);
}

#[test]
fn staleness_is_detected_from_last_update_time() {
    let mut cache = DepthCache::new();
    cache.update(DepthUpdate::Snapshot(payload(1000, vec![level(100, 1)], vec![])));
    assert_eq!(cache.time, 1000);
    assert!(!cache.is_stale(1500, 1000));
    assert!(!cache.is_stale(2000, 1000));
    assert!(cache.is_stale(2001, 1000));
}

#[test]
fn delta_upserts_levels() {
    let mut cache = DepthCache::new();
    cache.update(DepthUpdate::Snapshot(payload(1, vec![level(100, 1)], vec![])));
    cache.update(DepthUpdate::Delta(payload(
        2,
        vec![level(100, 5), level(102, 3)],
        vec![level(200, 1)],
    )));
    let (bids, asks) = sorted_book(&cache);
    assert_eq!(bids, vec![(100, 5), (102, 3)]);
    assert_eq!(asks, vec![(200, 1)]);
}
