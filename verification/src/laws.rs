//! What holds of the cache whatever its state. Each law is a proof about the
//! state machine that the contracts of `ImageCache` and `AllPendingLoads` speak
//! of. The operations take the cache by exclusive reference, so callers on
//! several threads take turns, and a law about steps in a row covers them.

use vstd::prelude::*;
use crate::cache::ImageCacheView;
use crate::decode::{decoded_image, ImageMetadata, ImageView};
use crate::fetch::{FetchResponseMsg, NetworkError};
use crate::pending::AllPendingLoadsView;
use crate::request::{CanRequestImages, ImageState, PendingImageId, UsePlaceholder};
use crate::response::{CompletedLoadView, ImageOrMetadataView, ImageResponseView, Lookup};

verus! {

/// The answer that tells a caller to start the fetch for the load `key`.
pub open spec fn not_requested(key: u64) -> Lookup {
    Err(ImageState::NotRequested(PendingImageId(key)))
}

/// The answer that tells a caller that the load `key` is in flight.
pub open spec fn pending(key: u64) -> Lookup {
    Err(ImageState::Pending(PendingImageId(key)))
}

/// The answer that tells a caller that nothing can be had.
pub open spec fn load_error() -> Lookup {
    Err(ImageState::LoadError)
}

/// The cache after the end of the fetch of the load `key` has been reported.
pub open spec fn after_eof(
    cache: ImageCacheView,
    key: u64,
    result: Result<(), NetworkError>,
) -> ImageCacheView {
    cache.notify(key, FetchResponseMsg::ProcessResponseEOF(result))
}

/// The cache after `n` lookups of `url` in a row, each by a caller that may
/// request images.
pub open spec fn after_requests(cache: ImageCacheView, url: Seq<char>, n: nat) -> ImageCacheView
    decreases n,
{
    if n == 0 {
        cache
    } else {
        after_requests(cache, url, (n - 1) as nat).find(url, CanRequestImages::Yes)
    }
}

/// One load per URL: of any number of requests for a URL that the cache has
/// not seen, the first creates the load and is told to start the fetch; every
/// later one, whatever it may do and accept, finds that load pending and
/// creates nothing.
pub proof fn lemma_dedup(cache: ImageCacheView, url: Seq<char>, n: nat)
    requires
        cache.wf(),
        !cache.completed_loads.contains_key(url),
        !cache.pending_loads.url_to_load_key.contains_key(url),
        cache.pending_loads.last_key < u64::MAX,
        n >= 1,
    ensures
        forall|use_placeholder: UsePlaceholder|
            #![trigger cache.found(url, use_placeholder, CanRequestImages::Yes)]
            cache.found(url, use_placeholder, CanRequestImages::Yes) == not_requested(
                cache.pending_loads.next_key(),
            ),
        after_requests(cache, url, n) == cache.find(url, CanRequestImages::Yes),
        after_requests(cache, url, n).pending_loads.loads.dom()
            == cache.pending_loads.loads.dom().insert(cache.pending_loads.next_key()),
        after_requests(cache, url, n).pending_loads.loads.dom().len()
            == cache.pending_loads.loads.dom().len() + 1,
        forall|use_placeholder: UsePlaceholder, can_request: CanRequestImages|
            #![trigger after_requests(cache, url, n).found(url, use_placeholder, can_request)]
            after_requests(cache, url, n).found(url, use_placeholder, can_request) == pending(
                cache.pending_loads.next_key(),
            ),
        forall|can_request: CanRequestImages|
            #![trigger after_requests(cache, url, n).find(url, can_request)]
            after_requests(cache, url, n).find(url, can_request) == after_requests(cache, url, n),
    decreases n,
{
    cache.pending_loads.lemma_reserve_wf(url);
    if n > 1 {
        lemma_dedup(cache, url, (n - 1) as nat);
    }
}

/// Completion happens in one step: when a pending load ends, its key and its
/// URL leave the pending loads and the URL is among the completed loads, under
/// that key and with the response that the load ended with. At no time is the
/// URL in neither place.
pub proof fn lemma_completion_moves_the_load(
    cache: ImageCacheView,
    key: u64,
    response: ImageResponseView,
)
    requires
        cache.wf(),
        cache.pending_loads.loads.contains_key(key),
    ensures
        !cache.complete_load(key, response).pending_loads.loads.contains_key(key),
        !cache.complete_load(key, response).pending_loads.url_to_load_key.contains_key(
            cache.pending_loads.loads[key].url,
        ),
        cache.complete_load(key, response).completed_loads.contains_key(
            cache.pending_loads.loads[key].url,
        ),
        cache.complete_load(key, response).completed_loads[cache.pending_loads.loads[key].url]
            == (CompletedLoadView { image_response: response, id: PendingImageId(key) }),
{
}

/// Completion is final: once the end of a fetch has been reported for a key,
/// no load waits under that key; the URL of the load that waited is completed
/// and no longer pending; and a second report for the key changes nothing,
/// neither the completed loads nor anything else.
pub proof fn lemma_completion_is_idempotent(
    cache: ImageCacheView,
    key: u64,
    first: Result<(), NetworkError>,
    second: Result<(), NetworkError>,
)
    requires
        cache.wf(),
    ensures
        !after_eof(cache, key, first).pending_loads.is_receiving(key),
        cache.pending_loads.is_receiving(key) ==> {
            &&& !after_eof(cache, key, first).pending_loads.loads.contains_key(key)
            &&& after_eof(cache, key, first).completed_loads.contains_key(
                cache.pending_loads.loads[key].url,
            )
        },
        after_eof(after_eof(cache, key, first), key, second) == after_eof(cache, key, first),
{
}

/// A report for a key under which no load is pending changes nothing.
pub proof fn lemma_unknown_key_is_ignored(cache: ImageCacheView, key: u64, data: FetchResponseMsg)
    requires
        !cache.pending_loads.loads.contains_key(key),
    ensures
        cache.notify(key, data) == cache,
{
}

/// Whether the load `key` waits for the end of its fetch and holds `metadata`.
pub open spec fn holds_metadata(cache: ImageCacheView, key: u64, metadata: ImageMetadata) -> bool {
    &&& cache.pending_loads.is_receiving(key)
    &&& cache.pending_loads.loads[key].metadata == Some(metadata)
}

/// Metadata is available as soon as it has arrived: once metadata has been
/// reported for a load that waits for the end of its fetch, the load holds it.
pub proof fn lemma_metadata_arrives(cache: ImageCacheView, key: u64, metadata: ImageMetadata)
    requires
        cache.wf(),
        cache.pending_loads.is_receiving(key),
    ensures
        holds_metadata(
            cache.notify(key, FetchResponseMsg::ProcessResponseMetadata(metadata)),
            key,
            metadata,
        ),
{
}

/// While a load holds metadata, every lookup of its URL is answered with that
/// metadata and changes nothing, whatever the caller may do and accept.
pub proof fn lemma_metadata_is_available(
    cache: ImageCacheView,
    key: u64,
    metadata: ImageMetadata,
    use_placeholder: UsePlaceholder,
    can_request: CanRequestImages,
)
    requires
        cache.wf(),
        holds_metadata(cache, key, metadata),
    ensures
        cache.found(cache.pending_loads.loads[key].url, use_placeholder, can_request) == Ok::<
            ImageOrMetadataView,
            ImageState,
        >(ImageOrMetadataView::MetadataAvailable(metadata)),
        cache.find(cache.pending_loads.loads[key].url, can_request) == cache,
{
}

/// A load holds its metadata until the end of its fetch arrives: no report
/// takes the metadata away but the end of the fetch of that load, or newer
/// metadata for it.
pub proof fn lemma_metadata_stays_after_report(
    cache: ImageCacheView,
    key: u64,
    metadata: ImageMetadata,
    other: u64,
    data: FetchResponseMsg,
)
    requires
        cache.wf(),
        holds_metadata(cache, key, metadata),
        other == key ==> data is ProcessResponseChunk,
    ensures
        holds_metadata(cache.notify(other, data), key, metadata),
        cache.notify(other, data).pending_loads.loads[key].url == cache.pending_loads.loads[key].url,
{
}

/// A load holds its metadata until the end of its fetch arrives: no lookup,
/// of its own URL or of any other, takes the metadata away.
pub proof fn lemma_metadata_stays_after_lookup(
    cache: ImageCacheView,
    key: u64,
    metadata: ImageMetadata,
    url: Seq<char>,
    can_request: CanRequestImages,
)
    requires
        cache.wf(),
        cache.can_find(url, can_request),
        holds_metadata(cache, key, metadata),
    ensures
        holds_metadata(cache.find(url, can_request), key, metadata),
        cache.find(url, can_request).pending_loads.loads[key].url
            == cache.pending_loads.loads[key].url,
{
    if !cache.completed_loads.contains_key(url) {
        if cache.pending_loads.url_to_load_key.contains_key(url) {
        } else if can_request == CanRequestImages::Yes {
            cache.pending_loads.lemma_reserve_wf(url);
        }
    }
}

/// After the end of the fetch a lookup is answered with the outcome of the
/// load, metadata or not: with what the decoded body makes available where the
/// fetch succeeded, with what the response of a failed load makes available
/// where it failed. The answer is never metadata, and the lookup changes
/// nothing.
pub proof fn lemma_terminal_classification(
    cache: ImageCacheView,
    key: u64,
    result: Result<(), NetworkError>,
    use_placeholder: UsePlaceholder,
    can_request: CanRequestImages,
)
    requires
        cache.wf(),
        cache.pending_loads.is_receiving(key),
    ensures
        after_eof(cache, key, result).found(
            cache.pending_loads.loads[key].url,
            use_placeholder,
            can_request,
        ) == (match result {
            Ok(_) => cache.decoder_response(decoded_image(cache.pending_loads.loads[key].bytes)),
            Err(_) => cache.failure_response(),
        }).available(use_placeholder),
        !(after_eof(cache, key, result).found(
            cache.pending_loads.loads[key].url,
            use_placeholder,
            can_request,
        ) matches Ok(ImageOrMetadataView::MetadataAvailable(_))),
        after_eof(cache, key, result).find(cache.pending_loads.loads[key].url, can_request)
            == after_eof(cache, key, result),
{
}

/// The placeholder policy: after a fetch has failed, a lookup by a consumer
/// that accepts a placeholder is answered with the placeholder, if one is
/// configured; a lookup by a consumer that does not is a load error, and so is
/// every lookup where none is configured.
pub proof fn lemma_placeholder_policy(
    cache: ImageCacheView,
    key: u64,
    error: NetworkError,
    can_request: CanRequestImages,
)
    requires
        cache.wf(),
        cache.pending_loads.is_receiving(key),
    ensures
        after_eof(cache, key, Err(error)).found(
            cache.pending_loads.loads[key].url,
            UsePlaceholder::Yes,
            can_request,
        ) == (match cache.placeholder {
            Some(image) => Ok::<ImageOrMetadataView, ImageState>(
                ImageOrMetadataView::ImageAvailable(image),
            ),
            None => load_error(),
        }),
        after_eof(cache, key, Err(error)).found(
            cache.pending_loads.loads[key].url,
            UsePlaceholder::No,
            can_request,
        ) == load_error(),
{
}

/// A body that the decoder rejects ends its load as a failed fetch does.
pub proof fn lemma_decode_failure_is_failure(cache: ImageCacheView, key: u64)
    ensures
        cache.handle_decoder(key, None::<ImageView>) == cache.complete_load(
            key,
            cache.failure_response(),
        ),
{
}

/// An operation on the pending loads that creates or removes a load.
pub enum IndexOp {
    GetCached(Seq<char>, CanRequestImages),
    Remove(u64),
}

/// The pending loads after one operation.
pub open spec fn apply(loads: AllPendingLoadsView, op: IndexOp) -> AllPendingLoadsView {
    match op {
        IndexOp::GetCached(url, can_request) => loads.get_cached(url, can_request),
        IndexOp::Remove(key) => loads.remove(key),
    }
}

/// The pending loads after a sequence of operations, the first one first.
pub open spec fn apply_all(loads: AllPendingLoadsView, ops: Seq<IndexOp>) -> AllPendingLoadsView
    decreases ops.len(),
{
    if ops.len() == 0 {
        loads
    } else {
        apply(apply_all(loads, ops.drop_last()), ops.last())
    }
}

/// Index consistency: after any sequence of operations that create and remove
/// loads, for which the keys suffice, the two indices agree; they hold equally
/// many entries, and one is empty exactly when the other is.
pub proof fn lemma_indices_stay_consistent(loads: AllPendingLoadsView, ops: Seq<IndexOp>)
    requires
        loads.wf(),
        loads.last_key + ops.len() <= u64::MAX,
    ensures
        apply_all(loads, ops).wf(),
        apply_all(loads, ops).last_key <= loads.last_key + ops.len(),
        apply_all(loads, ops).url_to_load_key.dom().finite(),
        apply_all(loads, ops).url_to_load_key.dom().len()
            == apply_all(loads, ops).loads.dom().len(),
        apply_all(loads, ops).url_to_load_key.dom().is_empty()
            == apply_all(loads, ops).loads.dom().is_empty(),
    decreases ops.len(),
{
    if ops.len() > 0 {
        lemma_indices_stay_consistent(loads, ops.drop_last());
        let before = apply_all(loads, ops.drop_last());
        match ops.last() {
            IndexOp::GetCached(url, can_request) => {
                if !before.url_to_load_key.contains_key(url)
                    && can_request == CanRequestImages::Yes {
                    before.lemma_reserve_wf(url);
                }
            },
            IndexOp::Remove(key) => {
                before.lemma_remove_wf(key);
            },
        }
    }
    apply_all(loads, ops).lemma_same_size();
}

} // verus!
