//! The cache itself: the completed loads beside the pending ones, and the steps
//! that take a load from the first request to its completion.

use vstd::prelude::*;
use vstd::hash_map::StringHashMap;
use std::collections::VecDeque;
use std::sync::Arc;
use crate::shared::share;
use crate::decode::{decode_bytes_sync, decoded_image, image_view, DecoderMsg, Image, ImageView};
use crate::fetch::FetchResponseMsg;
use crate::pending::{AllPendingLoads, AllPendingLoadsView, CacheResult, LoadKey};
use crate::request::{CanRequestImages, ImageState, PendingImageId, UsePlaceholder};
use crate::response::{
    lookup_option_view, lookup_view, CompletedLoad, CompletedLoadView, ImageOrMetadataAvailable,
    ImageOrMetadataView, ImageResponse, ImageResponseView, Lookup,
};

verus! {

/// What an `ImageCache` holds, as a mathematical value: the completed loads by
/// URL, their URLs in the order in which the loads were completed (the oldest
/// first), the number of completed loads that the cache keeps at most, the
/// pending loads, and the placeholder image if one is configured.
pub struct ImageCacheView {
    pub completed_loads: Map<Seq<char>, CompletedLoadView>,
    pub completed_order: Seq<Seq<char>>,
    pub completed_limit: usize,
    pub pending_loads: AllPendingLoadsView,
    pub placeholder: Option<ImageView>,
}

impl ImageCacheView {
    /// Nothing completed, nothing pending, no placeholder; at most `limit`
    /// completed loads are kept.
    pub open spec fn empty(limit: usize) -> ImageCacheView {
        ImageCacheView {
            completed_loads: Map::empty(),
            completed_order: Seq::empty(),
            completed_limit: limit,
            pending_loads: AllPendingLoadsView::empty(),
            placeholder: None,
        }
    }

    /// The completed load of `url` is settled: the URL is not pending as well,
    /// the load ended with a terminal response, and its key has been issued
    /// and is no longer pending.
    pub open spec fn completed_is_settled(self, url: Seq<char>) -> bool {
        &&& !self.pending_loads.url_to_load_key.contains_key(url)
        &&& self.completed_loads[url].image_response.is_terminal()
        &&& 0 < self.completed_loads[url].id.0 <= self.pending_loads.last_key
        &&& !self.pending_loads.loads.contains_key(self.completed_loads[url].id.0)
    }

    /// The pending indices agree; a URL is completed or pending, never both;
    /// each completed load ended with a terminal response; a key stands for
    /// one load for good: the key of a completed load has been issued, is no
    /// longer pending, and belongs to no other completed load; and the order
    /// of completion lists each completed URL once, and no more URLs than the
    /// cache keeps.
    pub open spec fn wf(self) -> bool {
        &&& self.pending_loads.wf()
        &&& 0 < self.completed_limit
        &&& self.completed_order.len() <= self.completed_limit
        &&& self.completed_order.no_duplicates()
        &&& forall|i: int|
            0 <= i < self.completed_order.len() ==> self.completed_loads.contains_key(
                #[trigger] self.completed_order[i],
            )
        &&& forall|url: Seq<char>| #[trigger]
            self.completed_loads.contains_key(url) ==> self.completed_order.contains(url)
        &&& forall|url: Seq<char>| #[trigger]
            self.completed_loads.contains_key(url) ==> self.completed_is_settled(url)
        &&& forall|a: Seq<char>, b: Seq<char>|
            #![trigger self.completed_loads.contains_key(a), self.completed_loads.contains_key(b)]
            self.completed_loads.contains_key(a) && self.completed_loads.contains_key(b)
                && self.completed_loads[a].id == self.completed_loads[b].id ==> a == b
    }

    /// The answer that the completed loads hold for `url`, if they hold one.
    pub open spec fn completed_image(
        self,
        url: Seq<char>,
        placeholder: UsePlaceholder,
    ) -> Option<Lookup> {
        if self.completed_loads.contains_key(url) {
            Some(self.completed_loads[url].image_response.available(placeholder))
        } else {
            None
        }
    }

    /// The response with which a failed load ends: the placeholder where one
    /// is configured, no image otherwise.
    pub open spec fn failure_response(self) -> ImageResponseView {
        match self.placeholder {
            Some(image) => ImageResponseView::PlaceholderLoaded(image),
            None => ImageResponseView::NoImage,
        }
    }

    /// The response with which a load ends whose body the decoder has seen: the
    /// decoded image, or, where the decoder rejected the body, the response of
    /// a failed load.
    pub open spec fn decoder_response(self, image: Option<ImageView>) -> ImageResponseView {
        match image {
            Some(image) => ImageResponseView::Loaded(image),
            None => self.failure_response(),
        }
    }

    /// The cache with room for one more completed load: where it keeps as
    /// many as it may, the load that was completed first leaves.
    pub open spec fn make_room(self) -> ImageCacheView {
        if 0 < self.completed_order.len() && self.completed_order.len() >= self.completed_limit {
            ImageCacheView {
                completed_loads: self.completed_loads.remove(self.completed_order.first()),
                completed_order: self.completed_order.drop_first(),
                ..self
            }
        } else {
            self
        }
    }

    /// The cache after the load `key` has ended with `response`: the load
    /// leaves the pending loads and its URL enters the completed loads, in one
    /// step; room is made for it first. Nothing changes where no such load is
    /// pending.
    pub open spec fn complete_load(self, key: u64, response: ImageResponseView) -> ImageCacheView {
        if self.pending_loads.loads.contains_key(key) {
            ImageCacheView {
                completed_loads: self.make_room().completed_loads.insert(
                    self.pending_loads.loads[key].url,
                    CompletedLoadView { image_response: response, id: PendingImageId(key) },
                ),
                completed_order: self.make_room().completed_order.push(
                    self.pending_loads.loads[key].url,
                ),
                pending_loads: self.pending_loads.remove(key),
                ..self
            }
        } else {
            self
        }
    }

    /// The cache after the decoder has reported on the body of the load `key`.
    pub open spec fn handle_decoder(self, key: u64, image: Option<ImageView>) -> ImageCacheView {
        self.complete_load(key, self.decoder_response(image))
    }

    /// The cache after the whole body of the load `key` has arrived and waits
    /// for a decoder.
    pub open spec fn begin_decode(self, key: u64) -> ImageCacheView {
        ImageCacheView { pending_loads: self.pending_loads.mark_complete(key), ..self }
    }

    /// Whether a lookup of `url` has a key at hand in case it needs one.
    pub open spec fn can_find(self, url: Seq<char>, can_request: CanRequestImages) -> bool {
        !self.completed_loads.contains_key(url) ==> self.pending_loads.can_get_cached(
            url,
            can_request,
        )
    }

    /// The cache after a lookup of `url`.
    ///
    /// A completed URL changes nothing. A pending load whose whole body has
    /// arrived is decoded and completed. Any other pending load stays as it
    /// is. For a URL that is neither, a load is created if the caller may
    /// request images.
    pub open spec fn find(self, url: Seq<char>, can_request: CanRequestImages) -> ImageCacheView {
        if self.completed_loads.contains_key(url) {
            self
        } else if self.pending_loads.url_to_load_key.contains_key(url) {
            let key = self.pending_loads.url_to_load_key[url];
            let load = self.pending_loads.loads[key];
            if load.is_received() {
                self.handle_decoder(key, decoded_image(load.bytes))
            } else {
                self
            }
        } else {
            ImageCacheView {
                pending_loads: self.pending_loads.get_cached(url, can_request),
                ..self
            }
        }
    }

    /// The answer to a lookup of `url`.
    ///
    /// A completed URL answers with what its response makes available. A
    /// pending load whose whole body has arrived answers with what its decoded
    /// body makes available; one with metadata and no result yet, with the
    /// metadata; any other, with its key as pending. A URL that is neither
    /// answers with the key of the load created for it, as not requested, or
    /// with a load error if the caller may not request images.
    pub open spec fn found(
        self,
        url: Seq<char>,
        use_placeholder: UsePlaceholder,
        can_request: CanRequestImages,
    ) -> Lookup {
        if self.completed_loads.contains_key(url) {
            self.completed_loads[url].image_response.available(use_placeholder)
        } else if self.pending_loads.url_to_load_key.contains_key(url) {
            let key = self.pending_loads.url_to_load_key[url];
            let load = self.pending_loads.loads[key];
            if load.is_received() {
                self.decoder_response(decoded_image(load.bytes)).available(use_placeholder)
            } else if load.result is None && load.metadata is Some {
                Ok(ImageOrMetadataView::MetadataAvailable(load.metadata->0))
            } else {
                Err(ImageState::Pending(PendingImageId(key)))
            }
        } else if can_request == CanRequestImages::Yes {
            Err(ImageState::NotRequested(PendingImageId(self.pending_loads.next_key())))
        } else {
            Err(ImageState::LoadError)
        }
    }

    /// Whether the load `key` can take `data`: a chunk is taken only by bytes
    /// that are not frozen.
    pub open spec fn can_notify(self, key: u64, data: FetchResponseMsg) -> bool {
        data is ProcessResponseChunk && self.pending_loads.loads.contains_key(key)
            ==> !self.pending_loads.loads[key].complete
    }

    /// The cache after the fetch side has reported `data` for the load `key`.
    ///
    /// A chunk is appended to the bytes of the load. Metadata replaces the
    /// metadata of the load. The end of the fetch completes a load that still
    /// waits for it: a whole body is decoded, and the load ends with what the
    /// decoder made of it; a failed fetch ends the load as failed. Nothing
    /// changes where no such load is pending, or where the end of the fetch is
    /// reported to a load that already knows it.
    pub open spec fn notify(self, key: u64, data: FetchResponseMsg) -> ImageCacheView {
        match data {
            FetchResponseMsg::ProcessResponseChunk(bytes) => ImageCacheView {
                pending_loads: self.pending_loads.extend_bytes(key, bytes@),
                ..self
            },
            FetchResponseMsg::ProcessResponseMetadata(metadata) => ImageCacheView {
                pending_loads: self.pending_loads.set_metadata(key, metadata),
                ..self
            },
            FetchResponseMsg::ProcessResponseEOF(result) => {
                if self.pending_loads.is_receiving(key) {
                    match result {
                        Ok(_) => self.handle_decoder(
                            key,
                            decoded_image(self.pending_loads.loads[key].bytes),
                        ),
                        Err(_) => self.complete_load(key, self.failure_response()),
                    }
                } else {
                    self
                }
            },
        }
    }

    /// The cache keeps no more completed loads than it may.
    pub proof fn lemma_completed_is_bounded(self)
        requires
            self.wf(),
        ensures
            self.completed_loads.dom().finite(),
            self.completed_loads.dom().len() == self.completed_order.len(),
            self.completed_loads.dom().len() <= self.completed_limit,
    {
        assert(self.completed_loads.dom() =~= self.completed_order.to_set());
        self.completed_order.unique_seq_to_set();
    }

    /// Making room keeps the cache well formed, and leaves room indeed.
    pub proof fn lemma_make_room_wf(self)
        requires
            self.wf(),
        ensures
            self.make_room().wf(),
            self.make_room().completed_order.len() < self.completed_limit,
            forall|url: Seq<char>| #[trigger]
                self.make_room().completed_loads.contains_key(url)
                    ==> self.completed_loads.contains_key(url)
                    && self.make_room().completed_loads[url] == self.completed_loads[url],
    {
        let after = self.make_room();
        if 0 < self.completed_order.len() && self.completed_order.len() >= self.completed_limit {
            assert forall|url: Seq<char>| #[trigger] after.completed_loads.contains_key(url)
                implies after.completed_order.contains(url) by {
                let i = choose|i: int|
                    0 <= i < self.completed_order.len() && self.completed_order[i] == url;
                assert(after.completed_order[i - 1] == url);
            }
        }
    }

    /// Completing a load keeps the cache well formed.
    pub proof fn lemma_complete_load_wf(self, key: u64, response: ImageResponseView)
        requires
            self.wf(),
            response.is_terminal(),
        ensures
            self.complete_load(key, response).wf(),
    {
        let after = self.complete_load(key, response);
        if self.pending_loads.loads.contains_key(key) {
            let url = self.pending_loads.loads[key].url;
            let room = self.make_room();
            self.lemma_make_room_wf();
            self.pending_loads.lemma_remove_wf(key);
            assert forall|other: Seq<char>| #[trigger] after.completed_loads.contains_key(other)
                implies after.completed_order.contains(other) by {
                if other == url {
                    assert(after.completed_order[room.completed_order.len() as int] == url);
                } else {
                    let i = choose|i: int|
                        0 <= i < room.completed_order.len() && room.completed_order[i] == other;
                    assert(after.completed_order[i] == other);
                }
            }
        }
    }

    /// Handing a load to a decoder keeps the cache well formed.
    pub proof fn lemma_begin_decode_wf(self, key: u64)
        requires
            self.wf(),
        ensures
            self.begin_decode(key).wf(),
    {
        if self.pending_loads.is_receiving(key) {
            self.pending_loads.lemma_replace_wf(key, self.pending_loads.loads[key].received());
        }
    }

    /// It makes no difference to the outcome whether a load is handed to a
    /// decoder first or decoded on the spot.
    pub proof fn lemma_begin_decode_then_handle(self, key: u64, image: Option<ImageView>)
        ensures
            self.begin_decode(key).handle_decoder(key, image) == self.handle_decoder(key, image),
    {
        let handed = self.begin_decode(key);
        let direct = self.handle_decoder(key, image);
        let after = handed.handle_decoder(key, image);
        assert(after.pending_loads.loads =~= direct.pending_loads.loads);
    }

    /// A lookup keeps the cache well formed.
    pub proof fn lemma_find_wf(self, url: Seq<char>, can_request: CanRequestImages)
        requires
            self.wf(),
            self.can_find(url, can_request),
        ensures
            self.find(url, can_request).wf(),
    {
        if self.completed_loads.contains_key(url) {
            // Nothing changes.
        } else if self.pending_loads.url_to_load_key.contains_key(url) {
            let key = self.pending_loads.url_to_load_key[url];
            let load = self.pending_loads.loads[key];
            if load.is_received() {
                self.lemma_complete_load_wf(key, self.decoder_response(decoded_image(load.bytes)));
            }
        } else if can_request == CanRequestImages::Yes {
            self.pending_loads.lemma_reserve_wf(url);
        }
    }

    /// A report of the fetch side keeps the cache well formed.
    pub proof fn lemma_notify_wf(self, key: u64, data: FetchResponseMsg)
        requires
            self.wf(),
        ensures
            self.notify(key, data).wf(),
    {
        match data {
            FetchResponseMsg::ProcessResponseChunk(bytes) => {
                if self.pending_loads.loads.contains_key(key) {
                    self.pending_loads.lemma_replace_wf(
                        key,
                        self.pending_loads.loads[key].with_chunk(bytes@),
                    );
                }
            },
            FetchResponseMsg::ProcessResponseMetadata(metadata) => {
                if self.pending_loads.loads.contains_key(key) {
                    self.pending_loads.lemma_replace_wf(
                        key,
                        self.pending_loads.loads[key].with_metadata(metadata),
                    );
                }
            },
            FetchResponseMsg::ProcessResponseEOF(result) => {
                if self.pending_loads.is_receiving(key) {
                    match result {
                        Ok(_) => {
                            self.lemma_complete_load_wf(
                                key,
                                self.decoder_response(
                                    decoded_image(self.pending_loads.loads[key].bytes),
                                ),
                            );
                        },
                        Err(_) => {
                            self.lemma_complete_load_wf(key, self.failure_response());
                        },
                    }
                }
            },
        }
    }
}

/// Implementation of the image cache.
pub struct ImageCache {
    /// Images that have finished loading (successful or not).
    completed_loads: StringHashMap<CompletedLoad>,
    /// The URLs of the completed loads, the one completed first at the front.
    completed_order: VecDeque<String>,
    /// How many completed loads are kept at most.
    completed_limit: usize,
    /// Images that are loading over network, or decoding.
    pending_loads: AllPendingLoads,
    /// The image that stands in for one that failed to load.
    placeholder_image: Option<Arc<Image>>,
}

impl View for ImageCache {
    type V = ImageCacheView;

    closed spec fn view(&self) -> ImageCacheView {
        ImageCacheView {
            completed_loads: Map::new(
                |url: Seq<char>| self.completed_loads@.contains_key(url),
                |url: Seq<char>| self.completed_loads@[url]@,
            ),
            completed_order: Seq::new(
                self.completed_order@.len(),
                |i: int| self.completed_order@[i]@,
            ),
            completed_limit: self.completed_limit,
            pending_loads: self.pending_loads@,
            placeholder: match self.placeholder_image {
                Some(image) => Some(image@),
                None => None,
            },
        }
    }
}

impl ImageCache {
    /// The invariant of the cache; see `ImageCacheView::wf`.
    pub open spec fn wf(&self) -> bool {
        self@.wf()
    }

    /// Create a new image cache: nothing completed, nothing pending, no
    /// placeholder. It keeps every completed load.
    pub fn new() -> (cache: ImageCache)
        ensures
            cache.wf(),
            cache@ == ImageCacheView::empty(usize::MAX),
    {
        ImageCache::with_limit(usize::MAX)
    }

    /// Create a new image cache that keeps at most `limit` completed loads.
    /// When one more load is completed, the one that was completed first
    /// leaves, and its URL is as new to the cache as one never seen.
    pub fn with_limit(limit: usize) -> (cache: ImageCache)
        requires
            limit > 0,
        ensures
            cache.wf(),
            cache@ == ImageCacheView::empty(limit),
    {
        let cache = ImageCache {
            completed_loads: StringHashMap::new(),
            completed_order: VecDeque::new(),
            completed_limit: limit,
            pending_loads: AllPendingLoads::new(),
            placeholder_image: None,
        };
        assert(cache@.completed_loads =~= Map::empty());
        assert(cache@.completed_order =~= Seq::empty());
        cache
    }

    /// Configures the image that stands in for images that fail to load from
    /// now on, or, with `None`, that nothing does.
    pub fn set_placeholder_image(&mut self, image: Option<Image>)
        requires
            old(self).wf(),
        ensures
            final(self).wf(),
            final(self)@ == (ImageCacheView { placeholder: image_view(image), ..old(self)@ }),
    {
        self.placeholder_image = match image {
            Some(image) => Some(Arc::new(image)),
            None => None,
        };
    }

    /// Return a completed image if it exists, or None if there is no complete
    /// load. A complete load that is not fully decoded, or is unavailable to a
    /// consumer with this placeholder policy, is a load error.
    pub fn get_completed_image_if_available(
        &self,
        url: &str,
        placeholder: UsePlaceholder,
    ) -> (answer: Option<Result<ImageOrMetadataAvailable, ImageState>>)
        ensures
            lookup_option_view(answer) == self@.completed_image(url@, placeholder),
    {
        match self.completed_loads.get(url) {
            Some(completed_load) => Some(completed_load.image_response.available(placeholder)),
            None => None,
        }
    }

    /// The response with which a failed load ends.
    fn failure_response(&self) -> (response: ImageResponse)
        ensures
            response@ == self@.failure_response(),
            response@.is_terminal(),
    {
        match &self.placeholder_image {
            Some(image) => ImageResponse::PlaceholderLoaded(share(image)),
            None => ImageResponse::NoImage,
        }
    }

    /// Ends the load `key` with `load_result`: the one place where a load
    /// leaves the pending loads and enters the completed loads. A key that is
    /// not pending has been completed before, and nothing happens.
    fn complete_load(&mut self, key: LoadKey, load_result: ImageResponse)
        requires
            old(self).wf(),
            load_result@.is_terminal(),
        ensures
            final(self).wf(),
            final(self)@ == old(self)@.complete_load(key.0, load_result@),
    {
        proof {
            old(self)@.lemma_complete_load_wf(key.0, load_result@);
        }
        match self.pending_loads.remove(&key) {
            Some(pending_load) => {
                if self.completed_order.len() >= self.completed_limit {
                    match self.completed_order.pop_front() {
                        Some(oldest) => {
                            self.completed_loads.remove(oldest.as_str());
                        },
                        None => {},
                    }
                }
                self.completed_order.push_back(pending_load.url.clone());
                self.completed_loads.insert(pending_load.url, CompletedLoad::new(load_result, key));
                assert(self@.completed_loads =~= old(self)@.complete_load(
                    key.0,
                    load_result@,
                ).completed_loads);
                assert(self@.completed_order =~= old(self)@.complete_load(
                    key.0,
                    load_result@,
                ).completed_order);
            },
            None => {},
        }
    }

    /// Takes the report of a decoder on the body of a load, and ends the load:
    /// with the decoded image, or as a failed load where there is none. A
    /// report on a load that is not pending is ignored.
    pub fn handle_decoder(&mut self, msg: DecoderMsg)
        requires
            old(self).wf(),
        ensures
            final(self).wf(),
            final(self)@ == old(self)@.handle_decoder(msg.key.0, image_view(msg.image)),
    {
        let response = match msg.image {
            Some(image) => ImageResponse::Loaded(Arc::new(image)),
            None => self.failure_response(),
        };
        self.complete_load(msg.key, response);
    }

    /// Records that the whole body of the load `id` has arrived, and hands the
    /// frozen bytes out for a decoder that runs elsewhere; its report goes to
    /// `handle_decoder`. Until then a lookup of the URL decodes the bytes
    /// itself. Nothing is handed out where there is no such load or the end of
    /// its fetch is already known.
    pub fn begin_decode(&mut self, id: PendingImageId) -> (bytes: Option<Arc<Vec<u8>>>)
        requires
            old(self).wf(),
        ensures
            final(self).wf(),
            final(self)@ == old(self)@.begin_decode(id.0),
            match bytes {
                Some(bytes) => {
                    &&& old(self)@.pending_loads.is_receiving(id.0)
                    &&& bytes@ == old(self)@.pending_loads.loads[id.0].bytes
                },
                None => !old(self)@.pending_loads.is_receiving(id.0),
            },
    {
        proof {
            old(self)@.lemma_begin_decode_wf(id.0);
        }
        self.pending_loads.mark_complete(&id)
    }

    /// Whether `find_image_or_metadata` may be called with these arguments:
    /// it may not where it would have to create a load and every key has been
    /// issued.
    pub fn can_find(&self, url: &str, can_request: CanRequestImages) -> (can: bool)
        ensures
            can == self@.can_find(url@, can_request),
    {
        if self.completed_loads.contains_key(url) {
            return true;
        }
        match self.pending_loads.get_key(url) {
            Some(_) => true,
            None => match can_request {
                CanRequestImages::No => true,
                CanRequestImages::Yes => !self.pending_loads.is_exhausted(),
            },
        }
    }

    /// Return any available metadata or image for the given URL, or an
    /// indication that the image is not yet available if it is in progress, or
    /// else reserve a slot in the cache for the URL if the consumer can request
    /// images.
    pub fn find_image_or_metadata(
        &mut self,
        url: String,
        use_placeholder: UsePlaceholder,
        can_request: CanRequestImages,
    ) -> (answer: Result<ImageOrMetadataAvailable, ImageState>)
        requires
            old(self).wf(),
            old(self)@.can_find(url@, can_request),
        ensures
            final(self).wf(),
            final(self)@ == old(self)@.find(url@, can_request),
            lookup_view(answer) == old(self)@.found(url@, use_placeholder, can_request),
    {
        proof {
            old(self)@.lemma_find_wf(url@, can_request);
        }
        match self.get_completed_image_if_available(url.as_str(), use_placeholder) {
            Some(answer) => {
                return answer;
            },
            None => {},
        }
        let decoded = match self.pending_loads.get_cached(url.clone(), can_request) {
            CacheResult::Hit(key) => {
                match self.pending_loads.get_by_key(&key) {
                    Some(pending_load) => {
                        match (&pending_load.result, &pending_load.metadata) {
                            (Some(Ok(_)), _) => decode_bytes_sync(
                                key,
                                pending_load.bytes.as_slice(),
                            ),
                            (None, Some(metadata)) => {
                                return Ok(ImageOrMetadataAvailable::MetadataAvailable(*metadata));
                            },
                            (Some(Err(_)), _) | (None, None) => {
                                return Err(ImageState::Pending(key));
                            },
                        }
                    },
                    None => {
                        return Err(ImageState::LoadError);
                    },
                }
            },
            CacheResult::Miss(Some(key)) => {
                return Err(ImageState::NotRequested(key));
            },
            CacheResult::Miss(None) => {
                return Err(ImageState::LoadError);
            },
        };
        // The whole body is here and no decoder has reported yet: decode it on
        // this thread, and ignore the other decoder's report when it comes.
        self.handle_decoder(decoded);
        match self.get_completed_image_if_available(url.as_str(), use_placeholder) {
            Some(answer) => answer,
            None => Err(ImageState::LoadError),
        }
    }

    /// Whether `notify_pending_response` may be called with these arguments:
    /// it may not with a chunk for a load whose bytes are frozen.
    pub fn can_notify(&self, id: PendingImageId, data: &FetchResponseMsg) -> (can: bool)
        requires
            self.wf(),
        ensures
            can == self@.can_notify(id.0, *data),
    {
        match data {
            FetchResponseMsg::ProcessResponseChunk(_) => {
                match self.pending_loads.get_by_key(&id) {
                    Some(pending_load) => pending_load.result.is_none(),
                    None => true,
                }
            },
            _ => true,
        }
    }

    /// Inform the image cache about a response for a pending request.
    pub fn notify_pending_response(&mut self, id: PendingImageId, data: FetchResponseMsg)
        requires
            old(self).wf(),
            old(self)@.can_notify(id.0, data),
        ensures
            final(self).wf(),
            final(self)@ == old(self)@.notify(id.0, data),
    {
        proof {
            old(self)@.lemma_notify_wf(id.0, data);
        }
        match data {
            FetchResponseMsg::ProcessResponseChunk(bytes) => {
                self.pending_loads.extend_bytes(&id, bytes.as_slice());
            },
            FetchResponseMsg::ProcessResponseMetadata(metadata) => {
                self.pending_loads.set_metadata(&id, metadata);
            },
            FetchResponseMsg::ProcessResponseEOF(result) => {
                match result {
                    Ok(_) => {
                        match self.pending_loads.mark_complete(&id) {
                            Some(bytes) => {
                                proof {
                                    old(self)@.lemma_begin_decode_wf(id.0);
                                    old(self)@.lemma_begin_decode_then_handle(
                                        id.0,
                                        decoded_image(bytes@),
                                    );
                                }
                                let msg = decode_bytes_sync(id, bytes.as_slice());
                                self.handle_decoder(msg);
                            },
                            None => {},
                        }
                    },
                    Err(_) => {
                        let receiving = match self.pending_loads.get_by_key(&id) {
                            Some(pending_load) => pending_load.result.is_none(),
                            None => false,
                        };
                        if receiving {
                            let response = self.failure_response();
                            self.complete_load(id, response);
                        }
                    },
                }
            },
        }
    }
}

} // verus!
