use image_cache::{
    AllPendingLoads, CacheResult, CanRequestImages, ImageBytes, ImageMetadata, PendingImageId,
    PendingLoad,
};

#[test]
fn new_pending_load_has_nothing_yet() {
    let load = PendingLoad::new("http://a/img.png".to_owned());
    assert_eq!(load.url, "http://a/img.png");
    assert_eq!(load.metadata, None);
    assert_eq!(load.result, None);
    assert!(matches!(load.bytes, ImageBytes::InProgress(_)));
    assert!(load.bytes.as_slice().is_empty());
}

#[test]
fn new_pending_loads_are_empty() {
    let loads = AllPendingLoads::new();
    assert!(loads.is_empty());
    assert!(!loads.is_exhausted());
    assert!(loads.get_by_key(&PendingImageId(1)).is_none());
    assert_eq!(loads.get_key("http://a/"), None);
}

#[test]
fn get_cached_without_permission_creates_nothing() {
    let mut loads = AllPendingLoads::new();
    let result = loads.get_cached("http://a/".to_owned(), CanRequestImages::No);
    assert_eq!(result, CacheResult::Miss(None));
    assert!(loads.is_empty());
    assert_eq!(loads.get_key("http://a/"), None);
}

#[test]
fn get_cached_creates_once_and_hits_after() {
    let mut loads = AllPendingLoads::new();
    let first = loads.get_cached("http://a/".to_owned(), CanRequestImages::Yes);
    assert_eq!(first, CacheResult::Miss(Some(PendingImageId(1))));
    assert!(!loads.is_empty());
    assert_eq!(loads.get_key("http://a/"), Some(PendingImageId(1)));
    assert_eq!(loads.get_by_key(&PendingImageId(1)).unwrap().url, "http://a/");

    let second = loads.get_cached("http://a/".to_owned(), CanRequestImages::Yes);
    assert_eq!(second, CacheResult::Hit(PendingImageId(1)));
    let third = loads.get_cached("http://a/".to_owned(), CanRequestImages::No);
    assert_eq!(third, CacheResult::Hit(PendingImageId(1)));

    let other = loads.get_cached("http://b/".to_owned(), CanRequestImages::Yes);
    assert_eq!(other, CacheResult::Miss(Some(PendingImageId(2))));
}

#[test]
fn urls_are_compared_letter_for_letter() {
    let mut loads = AllPendingLoads::new();
    loads.get_cached("http://a/img".to_owned(), CanRequestImages::Yes);
    let result = loads.get_cached("http://a/IMG".to_owned(), CanRequestImages::Yes);
    assert_eq!(result, CacheResult::Miss(Some(PendingImageId(2))));
}

#[test]
fn remove_takes_the_load_out_of_both_indices() {
    let mut loads = AllPendingLoads::new();
    loads.get_cached("http://a/".to_owned(), CanRequestImages::Yes);
    loads.get_cached("http://b/".to_owned(), CanRequestImages::Yes);

    let removed = loads.remove(&PendingImageId(1)).unwrap();
    assert_eq!(removed.url, "http://a/");
    assert!(loads.get_by_key(&PendingImageId(1)).is_none());
    assert_eq!(loads.get_key("http://a/"), None);
    assert_eq!(loads.get_key("http://b/"), Some(PendingImageId(2)));
    assert!(!loads.is_empty());

    assert!(loads.remove(&PendingImageId(1)).is_none());
    assert!(loads.remove(&PendingImageId(9)).is_none());
    assert!(loads.remove(&PendingImageId(2)).is_some());
    assert!(loads.is_empty());
}

#[test]
fn a_key_is_never_issued_twice() {
    let mut loads = AllPendingLoads::new();
    loads.get_cached("http://a/".to_owned(), CanRequestImages::Yes);
    loads.remove(&PendingImageId(1));
    let again = loads.get_cached("http://a/".to_owned(), CanRequestImages::Yes);
    assert_eq!(again, CacheResult::Miss(Some(PendingImageId(2))));
}

#[test]
fn is_empty_follows_inserts_and_removes() {
    let mut loads = AllPendingLoads::new();
    let urls = ["u0", "u1", "u2", "u3", "u4", "u5", "u6", "u7"];
    for (count, url) in urls.iter().enumerate() {
        assert_eq!(loads.is_empty(), count == 0);
        loads.get_cached((*url).to_owned(), CanRequestImages::Yes);
    }
    for key in 1..=8u64 {
        assert!(!loads.is_empty());
        let removed = loads.remove(&PendingImageId(key)).unwrap();
        assert_eq!(removed.url, urls[(key - 1) as usize]);
        assert_eq!(loads.get_key(urls[(key - 1) as usize]), None);
    }
    assert!(loads.is_empty());
}

#[test]
fn extend_bytes_appends_to_the_load() {
    let mut loads = AllPendingLoads::new();
    loads.get_cached("http://a/".to_owned(), CanRequestImages::Yes);
    loads.extend_bytes(&PendingImageId(1), &[1, 2]);
    loads.extend_bytes(&PendingImageId(1), &[3]);
    loads.extend_bytes(&PendingImageId(5), &[9]);
    assert_eq!(loads.get_by_key(&PendingImageId(1)).unwrap().bytes.as_slice(), &[1, 2, 3]);
    assert!(loads.get_by_key(&PendingImageId(5)).is_none());
}

#[test]
fn set_metadata_overwrites() {
    let mut loads = AllPendingLoads::new();
    loads.get_cached("http://a/".to_owned(), CanRequestImages::Yes);
    loads.set_metadata(&PendingImageId(1), ImageMetadata { width: 1, height: 2 });
    loads.set_metadata(&PendingImageId(1), ImageMetadata { width: 3, height: 4 });
    loads.set_metadata(&PendingImageId(2), ImageMetadata { width: 5, height: 6 });
    let load = loads.get_by_key(&PendingImageId(1)).unwrap();
    assert_eq!(load.metadata, Some(ImageMetadata { width: 3, height: 4 }));
    assert!(loads.get_by_key(&PendingImageId(2)).is_none());
}

#[test]
fn mark_complete_freezes_once() {
    let mut loads = AllPendingLoads::new();
    loads.get_cached("http://a/".to_owned(), CanRequestImages::Yes);
    loads.extend_bytes(&PendingImageId(1), &[7, 8]);

    let frozen = loads.mark_complete(&PendingImageId(1)).unwrap();
    assert_eq!(*frozen, vec![7, 8]);
    let load = loads.get_by_key(&PendingImageId(1)).unwrap();
    assert_eq!(load.result, Some(Ok(())));
    assert!(matches!(load.bytes, ImageBytes::Complete(_)));
    assert_eq!(load.bytes.as_slice(), &[7, 8]);

    assert!(loads.mark_complete(&PendingImageId(1)).is_none());
    assert!(loads.mark_complete(&PendingImageId(2)).is_none());
    assert_eq!(loads.get_key("http://a/"), Some(PendingImageId(1)));
}
