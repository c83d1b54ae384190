use image_cache::{
    CanRequestImages, CompletedLoad, DecoderMsg, FetchResponseMsg, Image, ImageCache,
    ImageMetadata, ImageOrMetadataAvailable, ImageResponse, ImageState, NetworkError,
    PendingImageId, UsePlaceholder,
};
use std::sync::Arc;

/// A 2 by 2 bitmap of 24 bits per pixel: red and green above blue and white.
fn bmp() -> Vec<u8> {
    vec![
        0x42, 0x4D, 70, 0, 0, 0, 0, 0, 0, 0, 54, 0, 0, 0, // file header
        40, 0, 0, 0, 2, 0, 0, 0, 2, 0, 0, 0, 1, 0, 24, 0, // size, width, height, planes, depth
        0, 0, 0, 0, 16, 0, 0, 0, 0x13, 0x0B, 0, 0, 0x13, 0x0B, 0, 0, // compression, bytes, density
        0, 0, 0, 0, 0, 0, 0, 0, // palette
        255, 0, 0, 255, 255, 255, 0, 0, // lower row: blue, white
        0, 0, 255, 0, 255, 0, 0, 0, // upper row: red, green
    ]
}

fn bmp_image() -> Image {
    Image {
        width: 2,
        height: 2,
        bytes: vec![255, 0, 0, 255, 0, 255, 0, 255, 0, 0, 255, 255, 255, 255, 255, 255],
    }
}

fn placeholder() -> Image {
    Image { width: 1, height: 1, bytes: vec![9, 9, 9, 255] }
}

fn find(
    cache: &mut ImageCache,
    url: &str,
    use_placeholder: UsePlaceholder,
    can_request: CanRequestImages,
) -> Result<ImageOrMetadataAvailable, ImageState> {
    assert!(cache.can_find(url, can_request));
    cache.find_image_or_metadata(url.to_owned(), use_placeholder, can_request)
}

fn notify(cache: &mut ImageCache, id: PendingImageId, data: FetchResponseMsg) {
    assert!(cache.can_notify(id, &data));
    cache.notify_pending_response(id, data);
}

fn image_of(answer: Result<ImageOrMetadataAvailable, ImageState>) -> Arc<Image> {
    match answer {
        Ok(ImageOrMetadataAvailable::ImageAvailable(image)) => image,
        other => panic!("no image: {:?}", other),
    }
}

/// Reserves a load of `url` and returns its key.
fn request(cache: &mut ImageCache, url: &str) -> PendingImageId {
    match find(cache, url, UsePlaceholder::No, CanRequestImages::Yes) {
        Err(ImageState::NotRequested(key)) => key,
        other => panic!("no load was reserved: {:?}", other),
    }
}

#[test]
fn scenario_request_load_and_failure() {
    let mut cache = ImageCache::new();

    // An unseen URL, asked for by a caller that may not request: no load is
    // reserved, and the answer is a load error.
    let answer = find(&mut cache, "u1", UsePlaceholder::No, CanRequestImages::No);
    assert_eq!(answer, Err(ImageState::LoadError));
    let again = find(&mut cache, "u1", UsePlaceholder::No, CanRequestImages::No);
    assert_eq!(again, Err(ImageState::LoadError));

    // The first key is still to be had: nothing was created above.
    let answer = find(&mut cache, "u1", UsePlaceholder::No, CanRequestImages::Yes);
    assert_eq!(answer, Err(ImageState::NotRequested(PendingImageId(1))));

    // Bytes, then success: the next lookup hands out the decoded image.
    let file = bmp();
    notify(&mut cache, PendingImageId(1), FetchResponseMsg::ProcessResponseChunk(file[..30].to_vec()));
    notify(&mut cache, PendingImageId(1), FetchResponseMsg::ProcessResponseChunk(file[30..].to_vec()));
    notify(&mut cache, PendingImageId(1), FetchResponseMsg::ProcessResponseEOF(Ok(())));
    let answer = find(&mut cache, "u1", UsePlaceholder::No, CanRequestImages::No);
    assert_eq!(*image_of(answer), bmp_image());

    // A failed fetch of another URL, no placeholder configured: a load error.
    let answer = find(&mut cache, "u2", UsePlaceholder::Yes, CanRequestImages::Yes);
    assert_eq!(answer, Err(ImageState::NotRequested(PendingImageId(2))));
    notify(
        &mut cache,
        PendingImageId(2),
        FetchResponseMsg::ProcessResponseEOF(Err(NetworkError::Internal("refused".to_owned()))),
    );
    let answer = find(&mut cache, "u2", UsePlaceholder::Yes, CanRequestImages::Yes);
    assert_eq!(answer, Err(ImageState::LoadError));
    let answer = find(&mut cache, "u2", UsePlaceholder::No, CanRequestImages::No);
    assert_eq!(answer, Err(ImageState::LoadError));
    assert_eq!(
        cache.get_completed_image_if_available("u2", UsePlaceholder::Yes),
        Some(Err(ImageState::LoadError))
    );
}

#[test]
fn new_cache_knows_no_url() {
    let cache = ImageCache::new();
    assert_eq!(cache.get_completed_image_if_available("u", UsePlaceholder::Yes), None);
    assert!(cache.can_find("u", CanRequestImages::Yes));
}

#[test]
fn many_first_requests_create_one_load() {
    let mut cache = ImageCache::new();
    let first = find(&mut cache, "u", UsePlaceholder::No, CanRequestImages::Yes);
    assert_eq!(first, Err(ImageState::NotRequested(PendingImageId(1))));
    for round in 0..20 {
        let can_request =
            if round % 2 == 0 { CanRequestImages::Yes } else { CanRequestImages::No };
        let use_placeholder = if round % 3 == 0 { UsePlaceholder::Yes } else { UsePlaceholder::No };
        let later = find(&mut cache, "u", use_placeholder, can_request);
        assert_eq!(later, Err(ImageState::Pending(PendingImageId(1))));
    }
    // Only one key was spent on "u".
    assert_eq!(request(&mut cache, "v"), PendingImageId(2));
}

#[test]
fn second_terminal_result_changes_nothing() {
    let mut cache = ImageCache::new();
    let key = request(&mut cache, "u");
    notify(&mut cache, key, FetchResponseMsg::ProcessResponseChunk(bmp()));
    notify(&mut cache, key, FetchResponseMsg::ProcessResponseEOF(Ok(())));
    let before = image_of(find(&mut cache, "u", UsePlaceholder::No, CanRequestImages::No));

    notify(&mut cache, key, FetchResponseMsg::ProcessResponseEOF(Err(NetworkError::LoadCancelled)));
    notify(&mut cache, key, FetchResponseMsg::ProcessResponseEOF(Ok(())));
    let after = image_of(find(&mut cache, "u", UsePlaceholder::No, CanRequestImages::No));
    assert!(Arc::ptr_eq(&before, &after));
    assert_eq!(*after, bmp_image());
}

#[test]
fn second_terminal_result_after_failure_changes_nothing() {
    let mut cache = ImageCache::new();
    let key = request(&mut cache, "u");
    notify(&mut cache, key, FetchResponseMsg::ProcessResponseChunk(bmp()));
    notify(&mut cache, key, FetchResponseMsg::ProcessResponseEOF(Err(NetworkError::LoadCancelled)));
    notify(&mut cache, key, FetchResponseMsg::ProcessResponseEOF(Ok(())));
    let answer = find(&mut cache, "u", UsePlaceholder::Yes, CanRequestImages::Yes);
    assert_eq!(answer, Err(ImageState::LoadError));
}

#[test]
fn reports_for_unknown_keys_are_ignored() {
    let mut cache = ImageCache::new();
    let key = request(&mut cache, "u");
    let stranger = PendingImageId(key.0 + 10);
    notify(&mut cache, stranger, FetchResponseMsg::ProcessResponseChunk(vec![1, 2, 3]));
    notify(
        &mut cache,
        stranger,
        FetchResponseMsg::ProcessResponseMetadata(ImageMetadata { width: 1, height: 1 }),
    );
    notify(&mut cache, stranger, FetchResponseMsg::ProcessResponseEOF(Ok(())));
    let answer = find(&mut cache, "u", UsePlaceholder::No, CanRequestImages::No);
    assert_eq!(answer, Err(ImageState::Pending(key)));
}

#[test]
fn metadata_is_available_until_the_load_ends() {
    let mut cache = ImageCache::new();
    let key = request(&mut cache, "u");
    let file = bmp();
    notify(&mut cache, key, FetchResponseMsg::ProcessResponseChunk(file[..26].to_vec()));
    assert_eq!(
        find(&mut cache, "u", UsePlaceholder::No, CanRequestImages::No),
        Err(ImageState::Pending(key))
    );

    let metadata = ImageMetadata { width: 2, height: 2 };
    notify(&mut cache, key, FetchResponseMsg::ProcessResponseMetadata(metadata));
    let expected = Ok(ImageOrMetadataAvailable::MetadataAvailable(metadata));
    assert_eq!(find(&mut cache, "u", UsePlaceholder::No, CanRequestImages::No), expected);
    assert_eq!(find(&mut cache, "u", UsePlaceholder::Yes, CanRequestImages::Yes), expected);

    // More of the body, and traffic on another URL, change nothing about that.
    notify(&mut cache, key, FetchResponseMsg::ProcessResponseChunk(file[26..].to_vec()));
    let other = request(&mut cache, "v");
    notify(&mut cache, other, FetchResponseMsg::ProcessResponseEOF(Err(NetworkError::LoadCancelled)));
    assert_eq!(find(&mut cache, "u", UsePlaceholder::No, CanRequestImages::No), expected);

    // The terminal result takes the place of the metadata.
    notify(&mut cache, key, FetchResponseMsg::ProcessResponseEOF(Ok(())));
    let answer = find(&mut cache, "u", UsePlaceholder::No, CanRequestImages::No);
    assert_eq!(*image_of(answer), bmp_image());
}

#[test]
fn later_metadata_overwrites_earlier() {
    let mut cache = ImageCache::new();
    let key = request(&mut cache, "u");
    notify(
        &mut cache,
        key,
        FetchResponseMsg::ProcessResponseMetadata(ImageMetadata { width: 1, height: 1 }),
    );
    notify(
        &mut cache,
        key,
        FetchResponseMsg::ProcessResponseMetadata(ImageMetadata { width: 640, height: 480 }),
    );
    assert_eq!(
        find(&mut cache, "u", UsePlaceholder::No, CanRequestImages::No),
        Ok(ImageOrMetadataAvailable::MetadataAvailable(ImageMetadata { width: 640, height: 480 }))
    );
}

#[test]
fn failed_load_with_metadata_is_a_load_error() {
    let mut cache = ImageCache::new();
    let key = request(&mut cache, "u");
    notify(
        &mut cache,
        key,
        FetchResponseMsg::ProcessResponseMetadata(ImageMetadata { width: 1, height: 1 }),
    );
    notify(&mut cache, key, FetchResponseMsg::ProcessResponseEOF(Err(NetworkError::LoadCancelled)));
    assert_eq!(
        find(&mut cache, "u", UsePlaceholder::No, CanRequestImages::No),
        Err(ImageState::LoadError)
    );
}

#[test]
fn placeholder_stands_in_for_a_failed_load() {
    let mut cache = ImageCache::new();
    cache.set_placeholder_image(Some(placeholder()));
    let key = request(&mut cache, "u");
    notify(
        &mut cache,
        key,
        FetchResponseMsg::ProcessResponseEOF(Err(NetworkError::Internal("timeout".to_owned()))),
    );

    let accepted = find(&mut cache, "u", UsePlaceholder::Yes, CanRequestImages::No);
    assert_eq!(*image_of(accepted), placeholder());
    let refused = find(&mut cache, "u", UsePlaceholder::No, CanRequestImages::No);
    assert_eq!(refused, Err(ImageState::LoadError));
    // Permission to request does not bring a failed load back.
    let refused = find(&mut cache, "u", UsePlaceholder::No, CanRequestImages::Yes);
    assert_eq!(refused, Err(ImageState::LoadError));
}

#[test]
fn placeholder_stands_in_for_an_undecodable_body() {
    let mut cache = ImageCache::new();
    cache.set_placeholder_image(Some(placeholder()));
    let key = request(&mut cache, "u");
    notify(&mut cache, key, FetchResponseMsg::ProcessResponseChunk(b"no image at all".to_vec()));
    notify(&mut cache, key, FetchResponseMsg::ProcessResponseEOF(Ok(())));

    let accepted = find(&mut cache, "u", UsePlaceholder::Yes, CanRequestImages::No);
    assert_eq!(*image_of(accepted), placeholder());
    let refused = find(&mut cache, "u", UsePlaceholder::No, CanRequestImages::No);
    assert_eq!(refused, Err(ImageState::LoadError));
}

#[test]
fn placeholder_is_not_used_for_a_loaded_image() {
    let mut cache = ImageCache::new();
    cache.set_placeholder_image(Some(placeholder()));
    let key = request(&mut cache, "u");
    notify(&mut cache, key, FetchResponseMsg::ProcessResponseChunk(bmp()));
    notify(&mut cache, key, FetchResponseMsg::ProcessResponseEOF(Ok(())));
    let answer = find(&mut cache, "u", UsePlaceholder::Yes, CanRequestImages::No);
    assert_eq!(*image_of(answer), bmp_image());
}

#[test]
fn placeholder_removed_before_the_failure_is_not_used() {
    let mut cache = ImageCache::new();
    cache.set_placeholder_image(Some(placeholder()));
    cache.set_placeholder_image(None);
    let key = request(&mut cache, "u");
    notify(&mut cache, key, FetchResponseMsg::ProcessResponseEOF(Err(NetworkError::LoadCancelled)));
    let answer = find(&mut cache, "u", UsePlaceholder::Yes, CanRequestImages::No);
    assert_eq!(answer, Err(ImageState::LoadError));
}

#[test]
fn empty_body_is_an_undecodable_body() {
    let mut cache = ImageCache::new();
    let key = request(&mut cache, "u");
    notify(&mut cache, key, FetchResponseMsg::ProcessResponseEOF(Ok(())));
    let answer = find(&mut cache, "u", UsePlaceholder::Yes, CanRequestImages::No);
    assert_eq!(answer, Err(ImageState::LoadError));
}

#[test]
fn lookups_share_one_decoded_image() {
    let mut cache = ImageCache::new();
    let key = request(&mut cache, "u");
    notify(&mut cache, key, FetchResponseMsg::ProcessResponseChunk(bmp()));
    notify(&mut cache, key, FetchResponseMsg::ProcessResponseEOF(Ok(())));
    let one = image_of(find(&mut cache, "u", UsePlaceholder::No, CanRequestImages::No));
    let two = image_of(find(&mut cache, "u", UsePlaceholder::Yes, CanRequestImages::Yes));
    assert!(Arc::ptr_eq(&one, &two));
    // The cache holds the image beside the two that were handed out.
    assert_eq!(Arc::strong_count(&one), 3);
}

#[test]
fn lookup_decodes_a_body_that_waits_for_its_decoder() {
    let mut cache = ImageCache::new();
    let key = request(&mut cache, "u");
    notify(&mut cache, key, FetchResponseMsg::ProcessResponseChunk(bmp()));

    let handed_out = cache.begin_decode(key).unwrap();
    assert_eq!(*handed_out, bmp());
    assert!(cache.begin_decode(key).is_none());
    // The bytes are frozen now: the cache takes no further chunk for the load.
    assert!(!cache.can_notify(key, &FetchResponseMsg::ProcessResponseChunk(vec![0])));

    let answer = find(&mut cache, "u", UsePlaceholder::No, CanRequestImages::No);
    let image = image_of(answer);
    assert_eq!(*image, bmp_image());

    // The decoder's report comes late and is ignored.
    cache.handle_decoder(DecoderMsg { key, image: None });
    cache.handle_decoder(DecoderMsg { key, image: Some(placeholder()) });
    let after = image_of(find(&mut cache, "u", UsePlaceholder::No, CanRequestImages::No));
    assert!(Arc::ptr_eq(&image, &after));
}

#[test]
fn decoder_report_completes_the_load() {
    let mut cache = ImageCache::new();
    let key = request(&mut cache, "u");
    notify(&mut cache, key, FetchResponseMsg::ProcessResponseChunk(bmp()));
    let bytes = cache.begin_decode(key).unwrap();
    let msg = image_cache::decode_bytes_sync(key, &bytes);
    cache.handle_decoder(msg);
    assert_eq!(
        cache.get_completed_image_if_available("u", UsePlaceholder::No),
        Some(Ok(ImageOrMetadataAvailable::ImageAvailable(Arc::new(bmp_image()))))
    );
}

#[test]
fn decoder_report_of_failure_ends_the_load_as_failed() {
    let mut cache = ImageCache::new();
    cache.set_placeholder_image(Some(placeholder()));
    let key = request(&mut cache, "u");
    cache.handle_decoder(DecoderMsg { key, image: None });
    assert_eq!(
        cache.get_completed_image_if_available("u", UsePlaceholder::Yes),
        Some(Ok(ImageOrMetadataAvailable::ImageAvailable(Arc::new(placeholder()))))
    );
    assert_eq!(
        cache.get_completed_image_if_available("u", UsePlaceholder::No),
        Some(Err(ImageState::LoadError))
    );
}

#[test]
fn decoder_report_for_unknown_key_is_ignored() {
    let mut cache = ImageCache::new();
    cache.handle_decoder(DecoderMsg { key: PendingImageId(3), image: Some(bmp_image()) });
    assert_eq!(cache.get_completed_image_if_available("u", UsePlaceholder::Yes), None);
    assert_eq!(request(&mut cache, "u"), PendingImageId(1));
}

#[test]
fn terminal_result_for_a_waiting_body_is_ignored() {
    let mut cache = ImageCache::new();
    let key = request(&mut cache, "u");
    notify(&mut cache, key, FetchResponseMsg::ProcessResponseChunk(bmp()));
    cache.begin_decode(key);
    notify(&mut cache, key, FetchResponseMsg::ProcessResponseEOF(Err(NetworkError::LoadCancelled)));
    // The load is still pending, and a lookup decodes it.
    assert_eq!(cache.get_completed_image_if_available("u", UsePlaceholder::No), None);
    let answer = find(&mut cache, "u", UsePlaceholder::No, CanRequestImages::No);
    assert_eq!(*image_of(answer), bmp_image());
}

#[test]
fn completed_url_is_never_requested_again() {
    let mut cache = ImageCache::new();
    let key = request(&mut cache, "u");
    notify(&mut cache, key, FetchResponseMsg::ProcessResponseEOF(Err(NetworkError::LoadCancelled)));
    for _ in 0..3 {
        let answer = find(&mut cache, "u", UsePlaceholder::No, CanRequestImages::Yes);
        assert_eq!(answer, Err(ImageState::LoadError));
    }
    // No key was spent on the lookups above.
    assert_eq!(request(&mut cache, "v"), PendingImageId(2));
}

#[test]
fn can_notify_refuses_only_chunks_for_frozen_bytes() {
    let mut cache = ImageCache::new();
    let key = request(&mut cache, "u");
    assert!(cache.can_notify(key, &FetchResponseMsg::ProcessResponseChunk(vec![1])));
    cache.begin_decode(key);
    assert!(!cache.can_notify(key, &FetchResponseMsg::ProcessResponseChunk(vec![1])));
    assert!(cache.can_notify(key, &FetchResponseMsg::ProcessResponseEOF(Ok(()))));
    assert!(cache.can_notify(
        key,
        &FetchResponseMsg::ProcessResponseMetadata(ImageMetadata { width: 1, height: 1 })
    ));
    assert!(cache.can_notify(PendingImageId(77), &FetchResponseMsg::ProcessResponseChunk(vec![1])));
}

#[test]
fn response_classification() {
    let image = Arc::new(bmp_image());
    let loaded = ImageResponse::Loaded(image.clone());
    assert_eq!(
        loaded.available(UsePlaceholder::No),
        Ok(ImageOrMetadataAvailable::ImageAvailable(image.clone()))
    );
    assert_eq!(
        loaded.available(UsePlaceholder::Yes),
        Ok(ImageOrMetadataAvailable::ImageAvailable(image.clone()))
    );
    let stand_in = ImageResponse::PlaceholderLoaded(image.clone());
    assert_eq!(
        stand_in.available(UsePlaceholder::Yes),
        Ok(ImageOrMetadataAvailable::ImageAvailable(image.clone()))
    );
    assert_eq!(stand_in.available(UsePlaceholder::No), Err(ImageState::LoadError));
    let metadata = ImageResponse::MetadataLoaded(ImageMetadata { width: 2, height: 2 });
    assert_eq!(metadata.available(UsePlaceholder::Yes), Err(ImageState::LoadError));
    assert_eq!(metadata.available(UsePlaceholder::No), Err(ImageState::LoadError));
    assert_eq!(ImageResponse::NoImage.available(UsePlaceholder::Yes), Err(ImageState::LoadError));
    assert_eq!(ImageResponse::NoImage.available(UsePlaceholder::No), Err(ImageState::LoadError));
}

#[test]
fn completed_load_keeps_response_and_id() {
    let load = CompletedLoad::new(ImageResponse::NoImage, PendingImageId(4));
    assert_eq!(load.image_response, ImageResponse::NoImage);
    assert_eq!(load.id, PendingImageId(4));
}

#[test]
fn unbounded_cache_keeps_every_completed_load() {
    let mut cache = ImageCache::new();
    for n in 0..50u64 {
        let url = format!("u{}", n);
        let key = request(&mut cache, &url);
        assert_eq!(key, PendingImageId(n + 1));
        notify(&mut cache, key, FetchResponseMsg::ProcessResponseEOF(Err(NetworkError::LoadCancelled)));
    }
    for n in 0..50u64 {
        let url = format!("u{}", n);
        assert_eq!(
            cache.get_completed_image_if_available(&url, UsePlaceholder::No),
            Some(Err(ImageState::LoadError))
        );
    }
}

#[test]
fn bounded_cache_evicts_the_oldest_completed_load() {
    let mut cache = ImageCache::with_limit(2);
    for url in ["a", "b", "c"] {
        let key = request(&mut cache, url);
        notify(&mut cache, key, FetchResponseMsg::ProcessResponseChunk(bmp()));
        notify(&mut cache, key, FetchResponseMsg::ProcessResponseEOF(Ok(())));
    }
    // "a" was completed first and had to leave when "c" came.
    assert_eq!(cache.get_completed_image_if_available("a", UsePlaceholder::No), None);
    assert!(cache.get_completed_image_if_available("b", UsePlaceholder::No).is_some());
    assert!(cache.get_completed_image_if_available("c", UsePlaceholder::No).is_some());

    // An evicted URL is as new as one never seen: it gets a load and a fresh key.
    let answer = find(&mut cache, "a", UsePlaceholder::No, CanRequestImages::No);
    assert_eq!(answer, Err(ImageState::LoadError));
    assert_eq!(request(&mut cache, "a"), PendingImageId(4));
    // A pending load takes no room among the completed loads.
    assert!(cache.get_completed_image_if_available("b", UsePlaceholder::No).is_some());

    notify(&mut cache, PendingImageId(4), FetchResponseMsg::ProcessResponseEOF(Err(NetworkError::LoadCancelled)));
    assert_eq!(cache.get_completed_image_if_available("b", UsePlaceholder::No), None);
    assert!(cache.get_completed_image_if_available("c", UsePlaceholder::No).is_some());
    assert_eq!(
        cache.get_completed_image_if_available("a", UsePlaceholder::No),
        Some(Err(ImageState::LoadError))
    );
}

#[test]
fn cache_of_one_keeps_the_load_completed_last() {
    let mut cache = ImageCache::with_limit(1);
    let first = request(&mut cache, "a");
    let second = request(&mut cache, "b");
    notify(&mut cache, second, FetchResponseMsg::ProcessResponseChunk(bmp()));
    notify(&mut cache, second, FetchResponseMsg::ProcessResponseEOF(Ok(())));
    let answer = find(&mut cache, "b", UsePlaceholder::No, CanRequestImages::No);
    assert_eq!(*image_of(answer), bmp_image());

    notify(&mut cache, first, FetchResponseMsg::ProcessResponseEOF(Err(NetworkError::LoadCancelled)));
    assert_eq!(cache.get_completed_image_if_available("b", UsePlaceholder::No), None);
    assert_eq!(
        find(&mut cache, "a", UsePlaceholder::No, CanRequestImages::Yes),
        Err(ImageState::LoadError)
    );
}

#[test]
fn lookups_do_not_renew_a_completed_load() {
    let mut cache = ImageCache::with_limit(2);
    for url in ["a", "b"] {
        let key = request(&mut cache, url);
        notify(&mut cache, key, FetchResponseMsg::ProcessResponseEOF(Err(NetworkError::LoadCancelled)));
    }
    // Looking "a" up does not make it younger than "b".
    find(&mut cache, "a", UsePlaceholder::No, CanRequestImages::No).unwrap_err();
    let key = request(&mut cache, "c");
    notify(&mut cache, key, FetchResponseMsg::ProcessResponseEOF(Err(NetworkError::LoadCancelled)));
    assert_eq!(cache.get_completed_image_if_available("a", UsePlaceholder::No), None);
    assert!(cache.get_completed_image_if_available("b", UsePlaceholder::No).is_some());
}
