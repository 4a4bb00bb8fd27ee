use build_cache::cache::{Cache, CacheNamespace};
use build_cache::handler::{GetResponse, PutStart};

fn key(fill: char) -> String {
    std::iter::repeat(fill).take(64).collect()
}

fn put_whole(cache: &mut Cache, ns: CacheNamespace, id: &str, bytes: &[u8]) {
    match cache.put_begin(ns, id) {
        PutStart::Writing(mut sink) => {
            sink.write_chunk(bytes);
            cache.put_commit(ns, sink);
        }
        PutStart::Collapsed => panic!("expected to be the sole writer of {}", id),
    }
}

fn get_bytes(cache: &Cache, ns: CacheNamespace, id: &str) -> Option<Vec<u8>> {
    match cache.handle_get(ns, id) {
        GetResponse::Hit(bytes) => Some(bytes),
        GetResponse::NotFound => None,
    }
}

#[test]
fn miss_on_unknown_key() {
    let cache = Cache::new();
    let id = key('a');
    assert_eq!(get_bytes(&cache, CacheNamespace::ActionCache, &id), None);
    assert_eq!(get_bytes(&cache, CacheNamespace::ContentAddressableStore, &id), None);
}

#[test]
fn round_trip_empty_payload() {
    let mut cache = Cache::new();
    let id = key('b');
    put_whole(&mut cache, CacheNamespace::ContentAddressableStore, &id, &[]);
    assert_eq!(
        get_bytes(&cache, CacheNamespace::ContentAddressableStore, &id),
        Some(Vec::new())
    );
}

#[test]
fn round_trip_single_byte() {
    let mut cache = Cache::new();
    let id = key('c');
    put_whole(&mut cache, CacheNamespace::ContentAddressableStore, &id, &[0x5a]);
    assert_eq!(
        get_bytes(&cache, CacheNamespace::ContentAddressableStore, &id),
        Some(vec![0x5a])
    );
}

#[test]
fn round_trip_multi_chunk_payload() {
    let mut cache = Cache::new();
    let id = key('d');
    let payload: Vec<u8> = (0..10 * 1024 * 1024u32).map(|i| (i % 251) as u8).collect();
    match cache.put_begin(CacheNamespace::ContentAddressableStore, &id) {
        PutStart::Writing(mut sink) => {
            for chunk in payload.chunks(64 * 1024) {
                sink.write_chunk(chunk);
            }
            cache.put_commit(CacheNamespace::ContentAddressableStore, sink);
        }
        PutStart::Collapsed => panic!("expected to be the sole writer"),
    }
    assert_eq!(
        get_bytes(&cache, CacheNamespace::ContentAddressableStore, &id),
        Some(payload)
    );
}

#[test]
fn concurrent_duplicate_put_collapses() {
    let mut cache = Cache::new();
    let id = key('e');
    let first = cache.put_begin(CacheNamespace::ActionCache, &id);
    let mut sink = match first {
        PutStart::Writing(sink) => sink,
        PutStart::Collapsed => panic!("first writer must claim the key"),
    };
    // A duplicate PUT while the first is streaming: answered as successful
    // without a second storage write.
    match cache.put_begin(CacheNamespace::ActionCache, &id) {
        PutStart::Collapsed => {}
        PutStart::Writing(_) => panic!("second writer must collapse"),
    }
    sink.write_chunk(b"winner");
    cache.put_commit(CacheNamespace::ActionCache, sink);
    // The winner's bytes are what was stored.
    assert_eq!(
        get_bytes(&cache, CacheNamespace::ActionCache, &id),
        Some(b"winner".to_vec())
    );
}

#[test]
fn get_masked_while_put_in_progress() {
    let mut cache = Cache::new();
    let id = key('f');
    // A prior completed blob exists under the key.
    put_whole(&mut cache, CacheNamespace::ActionCache, &id, b"old contents");
    assert_eq!(
        get_bytes(&cache, CacheNamespace::ActionCache, &id),
        Some(b"old contents".to_vec())
    );
    // A re-PUT of the same key is in progress: reads are masked.
    let sink = match cache.put_begin(CacheNamespace::ActionCache, &id) {
        PutStart::Writing(sink) => sink,
        PutStart::Collapsed => panic!("no other writer holds the key"),
    };
    assert!(cache.is_in_flight(CacheNamespace::ActionCache, &id));
    assert_eq!(get_bytes(&cache, CacheNamespace::ActionCache, &id), None);
    // Once committed, the new blob is visible again.
    let mut sink = sink;
    sink.write_chunk(b"new contents");
    cache.put_commit(CacheNamespace::ActionCache, sink);
    assert!(!cache.is_in_flight(CacheNamespace::ActionCache, &id));
    assert_eq!(
        get_bytes(&cache, CacheNamespace::ActionCache, &id),
        Some(b"new contents".to_vec())
    );
}

#[test]
fn failed_put_releases_key_and_stores_nothing() {
    let mut cache = Cache::new();
    let id = key('1');
    let mut sink = match cache.put_begin(CacheNamespace::ContentAddressableStore, &id) {
        PutStart::Writing(sink) => sink,
        PutStart::Collapsed => panic!("no other writer holds the key"),
    };
    sink.write_chunk(b"partial bytes that must never become visible");
    // The body stream or the storage medium fails mid-transfer.
    cache.put_fail(CacheNamespace::ContentAddressableStore, sink);
    // The key is no longer in flight and nothing was stored.
    assert!(!cache.is_in_flight(CacheNamespace::ContentAddressableStore, &id));
    assert_eq!(get_bytes(&cache, CacheNamespace::ContentAddressableStore, &id), None);
    // A subsequent PUT is accepted and performs a real, complete write.
    match cache.put_begin(CacheNamespace::ContentAddressableStore, &id) {
        PutStart::Writing(mut retry) => {
            retry.write_chunk(b"second attempt");
            cache.put_commit(CacheNamespace::ContentAddressableStore, retry);
        }
        PutStart::Collapsed => panic!("released key must be claimable again"),
    }
    assert_eq!(
        get_bytes(&cache, CacheNamespace::ContentAddressableStore, &id),
        Some(b"second attempt".to_vec())
    );
}

#[test]
fn namespaces_share_no_storage() {
    let mut cache = Cache::new();
    let id = key('2');
    put_whole(&mut cache, CacheNamespace::ActionCache, &id, b"action result");
    assert_eq!(get_bytes(&cache, CacheNamespace::ContentAddressableStore, &id), None);
    assert_eq!(
        get_bytes(&cache, CacheNamespace::ActionCache, &id),
        Some(b"action result".to_vec())
    );
    // And the other way round.
    put_whole(&mut cache, CacheNamespace::ContentAddressableStore, &id, b"content");
    assert_eq!(
        get_bytes(&cache, CacheNamespace::ActionCache, &id),
        Some(b"action result".to_vec())
    );
    assert_eq!(
        get_bytes(&cache, CacheNamespace::ContentAddressableStore, &id),
        Some(b"content".to_vec())
    );
}

#[test]
fn later_put_overwrites_in_full() {
    let mut cache = Cache::new();
    let id = key('3');
    put_whole(&mut cache, CacheNamespace::ActionCache, &id, b"a long first version");
    put_whole(&mut cache, CacheNamespace::ActionCache, &id, b"short");
    assert_eq!(
        get_bytes(&cache, CacheNamespace::ActionCache, &id),
        Some(b"short".to_vec())
    );
}

#[test]
fn in_flight_masking_is_per_namespace() {
    let mut cache = Cache::new();
    let id = key('4');
    put_whole(&mut cache, CacheNamespace::ContentAddressableStore, &id, b"blob");
    // A write in the action cache masks nothing in the content store.
    let sink = match cache.put_begin(CacheNamespace::ActionCache, &id) {
        PutStart::Writing(sink) => sink,
        PutStart::Collapsed => panic!("no other writer holds the key"),
    };
    assert_eq!(
        get_bytes(&cache, CacheNamespace::ContentAddressableStore, &id),
        Some(b"blob".to_vec())
    );
    cache.put_fail(CacheNamespace::ActionCache, sink);
}
