use blisspaper::bliss::{Bliss, FetchStep};
use blisspaper::config::Config;
use blisspaper::fetch::unsplash::{CollectionEndpoint, PhotoMeta, PhotoSizes};
use blisspaper::store::Store;
use blisspaper::wallpaper::dummy;
use blisspaper::ApiKeys;

fn photo(raw: &str) -> PhotoMeta {
    PhotoMeta {
        urls: PhotoSizes {
            raw: Some(raw.to_owned()),
            full: None,
            regular: None,
            small: None,
        },
    }
}

fn engine(capacity: usize) -> Bliss<dummy::Manager> {
    let store = Store::new(".cache".to_owned(), capacity);
    Bliss::new(dummy::Manager {}, store, CollectionEndpoint::new(1))
}

#[test]
fn test_store_never_exceeds_capacity() {
    // Many synthetic ticks against capacity 3: after every tick the store
    // holds at most three entries.
    let mut bliss = engine(3);
    let mut next_photo_id = 0;
    for _tick in 0..40 {
        bliss.make_room();
        match bliss.fetch_step() {
            FetchStep::Download(url) => {
                let _ = bliss.on_download_succeeded(&url);
            }
            FetchStep::FetchPage(_url) => {
                let page = vec![
                    photo(&format!("photo-{}", next_photo_id)),
                    photo(&format!("photo-{}", next_photo_id + 1)),
                ];
                next_photo_id += 2;
                bliss.on_page_fetched(&page);
            }
        }
        bliss.rotation_step();
        assert!(bliss.store.size() <= 3);
    }
    // enough ticks have passed for the store to be full or one eviction short
    assert!(bliss.store.size() >= 2);
}

#[test]
fn test_third_insert_evicts_oldest() {
    // Capacity 2: urlA and urlB fill the store; before urlC arrives the
    // engine evicts the entry inserted first, leaving exactly {urlB, urlC}.
    let mut bliss = engine(2);

    assert_eq!(bliss.make_room(), None);
    assert!(bliss.on_download_succeeded("urlA").is_ok());
    assert_eq!(bliss.make_room(), None);
    assert!(bliss.on_download_succeeded("urlB").is_ok());
    assert_eq!(bliss.store.size(), 2);

    let evicted = bliss.make_room();
    assert_eq!(evicted, Some(".cache/dXJsQQ==.jpg".to_owned()));
    assert!(bliss.on_download_succeeded("urlC").is_ok());

    assert_eq!(bliss.store.size(), 2);
    assert!(!bliss.store.contains("urlA"));
    assert!(bliss.store.contains("urlB"));
    assert!(bliss.store.contains("urlC"));
}

#[test]
fn test_duplicate_download_is_skipped() {
    let mut bliss = engine(5);
    bliss.make_room();
    assert!(bliss.on_download_succeeded("urlA").is_ok());
    bliss.make_room();
    assert!(bliss.on_download_succeeded("urlA").is_err());
    assert_eq!(bliss.store.size(), 1);
}

#[test]
fn test_rotation_visits_each_entry_once_then_wraps() {
    for order in [["a.jpg", "b.jpg", "c.jpg"], ["c.jpg", "a.jpg", "b.jpg"]] {
        let mut bliss = engine(10);
        for url in order {
            bliss.make_room();
            assert!(bliss.on_download_succeeded(url).is_ok());
        }

        // the first step of a round re-arms from the store
        assert_eq!(bliss.rotation_step(), None);
        let mut seen: Vec<String> = Vec::new();
        for _ in 0..3 {
            seen.push(bliss.rotation_step().expect("a stored entry"));
        }
        // all three entries, each exactly once
        assert_eq!(seen.len(), 3);
        for url in order {
            let path = bliss.store.get_filepath(url);
            assert_eq!(seen.iter().filter(|p| **p == path).count(), 1);
        }

        // the round is exhausted: the next step wraps by re-arming ...
        assert_eq!(bliss.rotation_step(), None);
        // ... and the round after that starts from the oldest entry again
        assert_eq!(bliss.rotation_step(), Some(seen[0].clone()));
    }
}

#[test]
fn test_download_failure_leaves_page_and_rotation_untouched() {
    // A failed download must not move the page counter, and the rotation
    // half of the same tick still succeeds.
    let mut bliss = engine(5);
    bliss.make_room();
    assert!(bliss.on_download_succeeded("urlA").is_ok());
    assert_eq!(bliss.rotation_step(), None);

    // load one page so the cursor has something to hand out
    let page = vec![photo("urlB")];
    assert!(!bliss.on_page_fetched(&page));
    let page_before = bliss.photos.current_page();

    bliss.make_room();
    let url = match bliss.fetch_step() {
        FetchStep::Download(url) => url,
        FetchStep::FetchPage(_) => panic!("a reference was queued"),
    };
    assert_eq!(url, "urlB");
    bliss.on_download_failed();

    assert_eq!(bliss.photos.current_page(), page_before);
    assert_eq!(
        bliss.rotation_step(),
        Some(".cache/dXJsQQ==.jpg".to_owned())
    );
}

#[test]
fn test_page_failure_leaves_cursor_untouched() {
    let mut bliss = engine(5);
    let request = match bliss.fetch_step() {
        FetchStep::FetchPage(url) => url,
        FetchStep::Download(_) => panic!("nothing queued yet"),
    };
    bliss.on_page_failed();
    match bliss.fetch_step() {
        FetchStep::FetchPage(url) => assert_eq!(url, request),
        FetchStep::Download(_) => panic!("nothing queued yet"),
    }
}

#[test]
fn test_empty_page_restarts_collection() {
    let mut bliss = engine(5);
    let page = vec![photo("u1")];
    assert!(!bliss.on_page_fetched(&page));
    assert_eq!(bliss.photos.current_page(), 2);
    let empty: Vec<PhotoMeta> = Vec::new();
    assert!(bliss.on_page_fetched(&empty));
    assert_eq!(bliss.photos.current_page(), 1);
}

#[test]
fn test_changerate_builder() {
    let bliss = engine(5).set_changerate(60);
    assert_eq!(bliss.changerate, 60);
}

#[test]
fn test_config_and_keys_hold_their_values() {
    let config = Config { changerate: 30, collections: vec![1234] };
    assert_eq!(config.changerate, 30);
    assert_eq!(config.collections, vec![1234]);
    let keys = ApiKeys { unsplash_client_id: "myid".to_owned() };
    assert_eq!(keys.unsplash_client_id, "myid");
}
