use blisspaper::fetch::unsplash::{CollectionEndpoint, PhotoMeta, PhotoSizes, PhotoSource};

fn photo(raw: Option<&str>) -> PhotoMeta {
    PhotoMeta {
        urls: PhotoSizes {
            raw: raw.map(|s| s.to_owned()),
            full: None,
            regular: None,
            small: None,
        },
    }
}

#[test]
fn test_collection_endpoint() {
    let endpoint = CollectionEndpoint::new(1234);
    let expected_url = format!("{}/{}/photos/", "https://api.unsplash.com/collections", 1234);
    assert_eq!(endpoint.get_url(), expected_url);
    let endpoint = endpoint.set_client_id("myid".to_owned());
    let expected_url = format!("{}?client_id=myid", expected_url);
    assert_eq!(endpoint.get_url(), expected_url);
}

#[test]
fn test_page_request_url() {
    let endpoint = CollectionEndpoint::new(1234)
        .set_client_id("myid".to_owned())
        .with_page(7);
    assert_eq!(
        endpoint.page_url(),
        "https://api.unsplash.com/collections/1234/photos/?page=7&client_id=myid"
    );

    let anonymous = CollectionEndpoint::new(0);
    assert_eq!(
        anonymous.page_url(),
        "https://api.unsplash.com/collections/0/photos/?page=1"
    );
}

#[test]
fn test_cursor_yields_pages_then_restarts() {
    // Pages: [2 items, 1 item, empty]: the cursor yields the three
    // references in order, signals end of collection on the empty page, and
    // the following request starts over at page one.
    let mut source = PhotoSource::new(CollectionEndpoint::new(9).into_pages());
    assert_eq!(source.current_page(), 1);
    assert!(source.next_photo().is_none());

    let page1 = vec![photo(Some("u1")), photo(Some("u2"))];
    assert!(!source.note_page(&page1));
    assert_eq!(source.current_page(), 2);
    assert_eq!(source.next_photo(), Some("u1".to_owned()));
    assert_eq!(source.next_photo(), Some("u2".to_owned()));
    assert!(source.next_photo().is_none());

    let page2 = vec![photo(Some("u3"))];
    assert!(!source.note_page(&page2));
    assert_eq!(source.current_page(), 3);
    assert_eq!(source.next_photo(), Some("u3".to_owned()));
    assert!(source.next_photo().is_none());

    let page3: Vec<PhotoMeta> = Vec::new();
    assert!(source.note_page(&page3));
    assert_eq!(source.current_page(), 1);
    assert!(source.next_photo().is_none());
}

#[test]
fn test_unusable_references_are_filtered() {
    let mut source = PhotoSource::new(CollectionEndpoint::new(9).into_pages());
    let page = vec![photo(None), photo(Some("")), photo(Some("ok"))];
    assert!(!source.note_page(&page));
    assert_eq!(source.next_photo(), Some("ok".to_owned()));
    assert!(source.next_photo().is_none());
}

#[test]
fn test_fetch_failure_retries_same_page() {
    let mut source = PhotoSource::new(CollectionEndpoint::new(9).into_pages());
    let page1 = vec![photo(Some("u1"))];
    source.note_page(&page1);
    assert_eq!(source.current_page(), 2);
    let before = source.request_url();
    source.note_failure();
    assert_eq!(source.current_page(), 2);
    assert_eq!(source.request_url(), before);
}

#[test]
fn test_endpoint_set_page() {
    let mut endpoint = CollectionEndpoint::new(5);
    endpoint.set_page(42);
    assert_eq!(
        endpoint.page_url(),
        "https://api.unsplash.com/collections/5/photos/?page=42"
    );
}
