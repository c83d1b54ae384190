//! The loads that are in flight, indexed by key and by URL.

use vstd::prelude::*;
use vstd::hash_map::StringHashMap;
use vstd::set_lib::lemma_map_size;
use std::collections::HashMap;
use std::sync::Arc;
use crate::bytes::ImageBytes;
use crate::decode::ImageMetadata;
use crate::fetch::NetworkError;
use crate::keygen::LoadKeyGenerator;
use crate::request::{CanRequestImages, PendingImageId};

verus! {

broadcast use vstd::std_specs::hash::group_hash_axioms;

/// A key used to communicate during loading.
pub type LoadKey = PendingImageId;

/// Represents an image that is either being loaded by the fetch side, or
/// being decoded.
#[derive(Debug)]
pub struct PendingLoad {
    /// The bytes loaded so far.
    pub bytes: ImageBytes,
    /// Image metadata, if available.
    pub metadata: Option<ImageMetadata>,
    /// Once loading is complete, the result of the operation.
    pub result: Option<Result<(), NetworkError>>,
    /// The url being loaded.
    pub url: String,
}

/// What a `PendingLoad` holds, as a mathematical value.
pub struct PendingLoadView {
    pub bytes: Seq<u8>,
    /// Whether the bytes are frozen.
    pub complete: bool,
    pub metadata: Option<ImageMetadata>,
    pub result: Option<Result<(), NetworkError>>,
    pub url: Seq<char>,
}

impl PendingLoadView {
    /// The load of `url` before anything has arrived.
    pub open spec fn new(url: Seq<char>) -> PendingLoadView {
        PendingLoadView {
            bytes: Seq::empty(),
            complete: false,
            metadata: None,
            result: None,
            url,
        }
    }

    /// The bytes are frozen exactly when the result of the fetch is known.
    pub open spec fn wf(self) -> bool {
        self.complete == (self.result is Some)
    }

    /// Whether the whole body has arrived, so that it can be decoded.
    pub open spec fn is_received(self) -> bool {
        self.result matches Some(Ok(_))
    }

    /// The load after `data` has arrived.
    pub open spec fn with_chunk(self, data: Seq<u8>) -> PendingLoadView {
        PendingLoadView { bytes: self.bytes + data, ..self }
    }

    /// The load after `metadata` has arrived.
    pub open spec fn with_metadata(self, metadata: ImageMetadata) -> PendingLoadView {
        PendingLoadView { metadata: Some(metadata), ..self }
    }

    /// The load after the whole body has arrived.
    pub open spec fn received(self) -> PendingLoadView {
        PendingLoadView { complete: true, result: Some(Ok(())), ..self }
    }
}

impl View for PendingLoad {
    type V = PendingLoadView;

    open spec fn view(&self) -> PendingLoadView {
        PendingLoadView {
            bytes: self.bytes@,
            complete: self.bytes.is_complete(),
            metadata: self.metadata,
            result: self.result,
            url: self.url@,
        }
    }
}

impl PendingLoad {
    /// The load of `url` before anything has arrived.
    pub fn new(url: String) -> (load: PendingLoad)
        ensures
            load@ == PendingLoadView::new(url@),
    {
        PendingLoad { bytes: ImageBytes::new(), metadata: None, result: None, url }
    }
}

/// The outcome of asking the pending loads for a URL.
#[derive(Copy, Clone, PartialEq, Eq, Debug)]
pub enum CacheResult {
    /// The URL is being loaded under this key.
    Hit(LoadKey),
    /// The URL was not being loaded. With a key, a load was created for it
    /// just now; without, nothing was.
    Miss(Option<LoadKey>),
}

/// What an `AllPendingLoads` holds, as a mathematical value: the loads by key,
/// the key of each URL that is being loaded, and the key issued last.
pub struct AllPendingLoadsView {
    pub loads: Map<u64, PendingLoadView>,
    pub url_to_load_key: Map<Seq<char>, u64>,
    pub last_key: u64,
}

impl AllPendingLoadsView {
    /// No load, and no key issued.
    pub open spec fn empty() -> AllPendingLoadsView {
        AllPendingLoadsView { loads: Map::empty(), url_to_load_key: Map::empty(), last_key: 0 }
    }

    /// The load `key` is in order: its key has been issued, its bytes are
    /// frozen exactly when its result is known, and its URL leads back to it.
    pub open spec fn load_is_indexed(self, key: u64) -> bool {
        &&& 0 < key <= self.last_key
        &&& self.loads[key].wf()
        &&& self.url_to_load_key.contains_key(self.loads[key].url)
        &&& self.url_to_load_key[self.loads[key].url] == key
    }

    /// The URL leads to a load, and that load is a load of this URL.
    pub open spec fn url_is_indexed(self, url: Seq<char>) -> bool {
        &&& self.loads.contains_key(self.url_to_load_key[url])
        &&& self.loads[self.url_to_load_key[url]].url == url
    }

    /// The two indices agree: each load is found under its URL, each URL
    /// leads to a load of that URL, and every key in use has been issued.
    pub open spec fn wf(self) -> bool {
        &&& self.loads.dom().finite()
        &&& forall|key: u64| #[trigger] self.loads.contains_key(key) ==> self.load_is_indexed(key)
        &&& forall|url: Seq<char>| #[trigger]
            self.url_to_load_key.contains_key(url) ==> self.url_is_indexed(url)
    }

    /// The key that is issued next.
    pub open spec fn next_key(self) -> u64 {
        (self.last_key + 1) as u64
    }

    /// The loads after a load of `url` has been created under the next key.
    pub open spec fn reserve(self, url: Seq<char>) -> AllPendingLoadsView {
        AllPendingLoadsView {
            loads: self.loads.insert(self.next_key(), PendingLoadView::new(url)),
            url_to_load_key: self.url_to_load_key.insert(url, self.next_key()),
            last_key: self.next_key(),
        }
    }

    /// Whether `get_cached` has a key at hand in case it needs one.
    pub open spec fn can_get_cached(self, url: Seq<char>, can_request: CanRequestImages) -> bool {
        !self.url_to_load_key.contains_key(url) && can_request == CanRequestImages::Yes
            ==> self.last_key < u64::MAX
    }

    /// The loads after `get_cached`: a load of `url` is created where none
    /// exists and the caller may request images; nothing changes otherwise.
    pub open spec fn get_cached(
        self,
        url: Seq<char>,
        can_request: CanRequestImages,
    ) -> AllPendingLoadsView {
        if self.url_to_load_key.contains_key(url) || can_request == CanRequestImages::No {
            self
        } else {
            self.reserve(url)
        }
    }

    /// The outcome of `get_cached`.
    pub open spec fn cache_result(
        self,
        url: Seq<char>,
        can_request: CanRequestImages,
    ) -> CacheResult {
        if self.url_to_load_key.contains_key(url) {
            CacheResult::Hit(PendingImageId(self.url_to_load_key[url]))
        } else if can_request == CanRequestImages::No {
            CacheResult::Miss(None)
        } else {
            CacheResult::Miss(Some(PendingImageId(self.next_key())))
        }
    }

    /// The loads without the load `key`, which leaves both indices.
    pub open spec fn remove(self, key: u64) -> AllPendingLoadsView {
        if self.loads.contains_key(key) {
            AllPendingLoadsView {
                loads: self.loads.remove(key),
                url_to_load_key: self.url_to_load_key.remove(self.loads[key].url),
                last_key: self.last_key,
            }
        } else {
            self
        }
    }

    /// The loads with `load` in place of the load `key`.
    pub open spec fn replace(self, key: u64, load: PendingLoadView) -> AllPendingLoadsView {
        AllPendingLoadsView { loads: self.loads.insert(key, load), ..self }
    }

    /// The loads after `data` has arrived for the load `key`.
    pub open spec fn extend_bytes(self, key: u64, data: Seq<u8>) -> AllPendingLoadsView {
        if self.loads.contains_key(key) {
            self.replace(key, self.loads[key].with_chunk(data))
        } else {
            self
        }
    }

    /// The loads after `metadata` has arrived for the load `key`.
    pub open spec fn set_metadata(self, key: u64, metadata: ImageMetadata) -> AllPendingLoadsView {
        if self.loads.contains_key(key) {
            self.replace(key, self.loads[key].with_metadata(metadata))
        } else {
            self
        }
    }

    /// Whether the load `key` exists and still waits for the end of its fetch.
    pub open spec fn is_receiving(self, key: u64) -> bool {
        self.loads.contains_key(key) && self.loads[key].result is None
    }

    /// The loads after the whole body of the load `key` has arrived.
    pub open spec fn mark_complete(self, key: u64) -> AllPendingLoadsView {
        if self.is_receiving(key) {
            self.replace(key, self.loads[key].received())
        } else {
            self
        }
    }

    /// Creating a load keeps the indices in agreement.
    pub proof fn lemma_reserve_wf(self, url: Seq<char>)
        requires
            self.wf(),
            !self.url_to_load_key.contains_key(url),
            self.last_key < u64::MAX,
        ensures
            self.reserve(url).wf(),
            !self.loads.contains_key(self.next_key()),
    {
    }

    /// Removing a load keeps the indices in agreement.
    pub proof fn lemma_remove_wf(self, key: u64)
        requires
            self.wf(),
        ensures
            self.remove(key).wf(),
    {
    }

    /// Replacing a load by one of the same URL keeps the indices in agreement.
    pub proof fn lemma_replace_wf(self, key: u64, load: PendingLoadView)
        requires
            self.wf(),
            self.loads.contains_key(key),
            load.wf(),
            load.url == self.loads[key].url,
        ensures
            self.replace(key, load).wf(),
    {
    }

    /// In indices that agree, no load is without its URL and no URL without
    /// its load: there are as many URLs as loads.
    pub proof fn lemma_same_size(self)
        requires
            self.wf(),
        ensures
            self.url_to_load_key.dom().finite(),
            self.url_to_load_key.dom().len() == self.loads.dom().len(),
            self.url_to_load_key.dom().is_empty() == self.loads.dom().is_empty(),
    {
        let keys = self.loads.dom();
        let urls = self.url_to_load_key.dom();
        let url_of = |key: u64| self.loads[key].url;
        assert(keys.map(url_of) =~= urls);
        lemma_map_size(keys, urls, url_of);
        if keys.is_empty() {
            urls.lemma_len0_is_empty();
        }
    }
}

/// Represents all the currently pending loads/decodings. For performance
/// reasons, loads are indexed by a dedicated load key.
pub struct AllPendingLoads {
    /// The loads, indexed by a load key. Used during most operations.
    loads: HashMap<u64, PendingLoad>,
    /// Get a load key from its url. Used only when starting and finishing a load.
    url_to_load_key: StringHashMap<u64>,
    /// A counter used to generate instances of LoadKey.
    keygen: LoadKeyGenerator,
}

impl View for AllPendingLoads {
    type V = AllPendingLoadsView;

    closed spec fn view(&self) -> AllPendingLoadsView {
        AllPendingLoadsView {
            loads: Map::new(
                |key: u64| self.loads@.contains_key(key),
                |key: u64| self.loads@[key]@,
            ),
            url_to_load_key: self.url_to_load_key@,
            last_key: self.keygen.last_issued(),
        }
    }
}

impl AllPendingLoads {
    /// The indices agree.
    pub open spec fn wf(&self) -> bool {
        self@.wf()
    }

    /// No load is pending, and no key has been issued.
    pub fn new() -> (loads: AllPendingLoads)
        ensures
            loads.wf(),
            loads@ == AllPendingLoadsView::empty(),
    {
        let loads = AllPendingLoads {
            loads: HashMap::new(),
            url_to_load_key: StringHashMap::new(),
            keygen: LoadKeyGenerator::new(),
        };
        assert(loads@.loads =~= Map::empty());
        loads
    }

    /// `true` if there is no currently pending load, `false` otherwise. The
    /// answer is read off the loads; the URLs agree with it.
    pub fn is_empty(&self) -> (empty: bool)
        requires
            self.wf(),
        ensures
            empty == self@.loads.dom().is_empty(),
            empty == self@.url_to_load_key.dom().is_empty(),
    {
        proof {
            assert(self@.loads.dom() =~= self.loads@.dom());
            self@.lemma_same_size();
        }
        self.loads.is_empty()
    }

    /// Whether every key has been issued, so that no load can be created.
    pub fn is_exhausted(&self) -> (exhausted: bool)
        ensures
            exhausted == (self@.last_key == u64::MAX),
    {
        self.keygen.is_exhausted()
    }

    /// Get a PendingLoad from its LoadKey.
    pub fn get_by_key(&self, key: &LoadKey) -> (load: Option<&PendingLoad>)
        ensures
            match load {
                Some(load) => {
                    &&& self@.loads.contains_key(key.0)
                    &&& load@ == self@.loads[key.0]
                },
                None => !self@.loads.contains_key(key.0),
            },
    {
        self.loads.get(&key.0)
    }

    /// Get the LoadKey under which a URL is being loaded.
    pub fn get_key(&self, url: &str) -> (key: Option<LoadKey>)
        ensures
            match key {
                Some(key) => {
                    &&& self@.url_to_load_key.contains_key(url@)
                    &&& self@.url_to_load_key[url@] == key.0
                },
                None => !self@.url_to_load_key.contains_key(url@),
            },
    {
        match self.url_to_load_key.get(url) {
            Some(key) => Some(PendingImageId(*key)),
            None => None,
        }
    }

    /// Remove a PendingLoad given its LoadKey. The load leaves both indices.
    pub fn remove(&mut self, key: &LoadKey) -> (removed: Option<PendingLoad>)
        requires
            old(self).wf(),
        ensures
            final(self).wf(),
            final(self)@ == old(self)@.remove(key.0),
            match removed {
                Some(load) => {
                    &&& old(self)@.loads.contains_key(key.0)
                    &&& load@ == old(self)@.loads[key.0]
                },
                None => !old(self)@.loads.contains_key(key.0),
            },
    {
        proof {
            old(self)@.lemma_remove_wf(key.0);
        }
        match self.loads.remove(&key.0) {
            Some(pending_load) => {
                self.url_to_load_key.remove(pending_load.url.as_str());
                assert(self@.loads =~= old(self)@.remove(key.0).loads);
                Some(pending_load)
            },
            None => {
                assert(self@.loads =~= old(self)@.loads);
                None
            },
        }
    }

    /// Get the load of a URL, or create one where the URL is not being loaded
    /// and the caller may request images. A new load gets the next key and
    /// enters both indices.
    pub fn get_cached(
        &mut self,
        url: String,
        can_request: CanRequestImages,
    ) -> (result: CacheResult)
        requires
            old(self).wf(),
            old(self)@.can_get_cached(url@, can_request),
        ensures
            final(self).wf(),
            final(self)@ == old(self)@.get_cached(url@, can_request),
            result == old(self)@.cache_result(url@, can_request),
    {
        match self.get_key(url.as_str()) {
            Some(load_key) => CacheResult::Hit(load_key),
            None => {
                match can_request {
                    CanRequestImages::No => CacheResult::Miss(None),
                    CanRequestImages::Yes => {
                        proof {
                            old(self)@.lemma_reserve_wf(url@);
                        }
                        let load_key = self.keygen.next();
                        let pending_load = PendingLoad::new(url.clone());
                        self.loads.insert(load_key.0, pending_load);
                        self.url_to_load_key.insert(url, load_key.0);
                        assert(self@.loads =~= old(self)@.reserve(url@).loads);
                        CacheResult::Miss(Some(load_key))
                    },
                }
            },
        }
    }

    /// Appends `data` to the bytes of the load `key`, if there is such a load.
    /// Its bytes must not be frozen.
    pub fn extend_bytes(&mut self, key: &LoadKey, data: &[u8])
        requires
            old(self).wf(),
            old(self)@.loads.contains_key(key.0) ==> !old(self)@.loads[key.0].complete,
        ensures
            final(self).wf(),
            final(self)@ == old(self)@.extend_bytes(key.0, data@),
    {
        match self.loads.remove(&key.0) {
            Some(pending_load) => {
                let mut pending_load = pending_load;
                pending_load.bytes.extend_from_slice(data);
                proof {
                    old(self)@.lemma_replace_wf(key.0, pending_load@);
                }
                self.loads.insert(key.0, pending_load);
                assert(self@.loads =~= old(self)@.extend_bytes(key.0, data@).loads);
            },
            None => {
                assert(self@.loads =~= old(self)@.loads);
            },
        }
    }

    /// Sets the metadata of the load `key`, if there is such a load. Metadata
    /// set before is overwritten.
    pub fn set_metadata(&mut self, key: &LoadKey, metadata: ImageMetadata)
        requires
            old(self).wf(),
        ensures
            final(self).wf(),
            final(self)@ == old(self)@.set_metadata(key.0, metadata),
    {
        match self.loads.remove(&key.0) {
            Some(pending_load) => {
                let mut pending_load = pending_load;
                pending_load.metadata = Some(metadata);
                proof {
                    old(self)@.lemma_replace_wf(key.0, pending_load@);
                }
                self.loads.insert(key.0, pending_load);
                assert(self@.loads =~= old(self)@.set_metadata(key.0, metadata).loads);
            },
            None => {
                assert(self@.loads =~= old(self)@.loads);
            },
        }
    }

    /// Records that the whole body of the load `key` has arrived: freezes its
    /// bytes and returns them. Nothing happens, and nothing is returned, where
    /// there is no such load or the end of its fetch is already known.
    pub fn mark_complete(&mut self, key: &LoadKey) -> (frozen: Option<Arc<Vec<u8>>>)
        requires
            old(self).wf(),
        ensures
            final(self).wf(),
            final(self)@ == old(self)@.mark_complete(key.0),
            match frozen {
                Some(bytes) => {
                    &&& old(self)@.is_receiving(key.0)
                    &&& bytes@ == old(self)@.loads[key.0].bytes
                },
                None => !old(self)@.is_receiving(key.0),
            },
    {
        match self.loads.remove(&key.0) {
            Some(pending_load) => {
                let mut pending_load = pending_load;
                assert(old(self)@.loads.contains_key(key.0));
                let frozen = match pending_load.result {
                    None => {
                        let bytes = pending_load.bytes.mark_complete();
                        pending_load.result = Some(Ok(()));
                        Some(bytes)
                    },
                    Some(_) => None,
                };
                proof {
                    old(self)@.lemma_replace_wf(key.0, pending_load@);
                }
                self.loads.insert(key.0, pending_load);
                assert(self@.loads =~= old(self)@.mark_complete(key.0).loads);
                frozen
            },
            None => {
                assert(self@.loads =~= old(self)@.loads);
                None
            },
        }
    }
}

} // verus!
