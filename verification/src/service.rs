//! What the trail service remembers between requests, and what it decides.
//!
//! The service itself never talks to a provider. It is told the time and
//! what came back, and it answers with what to do next: hand out what is
//! cached, go and fetch, or wait for the fetch that is already under way.
//!
//! Two caches are kept. Answers of the tile provider are kept for the box
//! that was asked about, for ten minutes. The catalogue of the detail
//! provider is kept whole, for twelve hours, and cut to the box asked about
//! each time it is read. At most one fetch from either provider is under way
//! at a time.

use vstd::prelude::*;
use crate::geometry::{filter_doc_by_bbox, within_view, Bbox};
use crate::model::{clone_trails, opt_text, views, Trail, TrailError, TrailQuery, TrailView};

verus! {

/// How long an answer of the tile provider is good for, in milliseconds.
pub const OVERPASS_TTL_MS: u64 = 600_000;

/// How long the catalogue of the detail provider is good for, in
/// milliseconds.
pub const DOC_TTL_MS: u64 = 43_200_000;

/// An answer of the tile provider, with the time it came and the box it
/// was for.
#[derive(Debug)]
pub struct OverpassCacheEntry {
    pub fetched_at: u64,
    pub bbox: Bbox,
    pub trails: Vec<Trail>,
}

/// The catalogue of the detail provider, with the time it came.
#[derive(Debug)]
pub struct DocCacheEntry {
    pub fetched_at: u64,
    pub trails: Vec<Trail>,
}

/// The trail service: where to ask, what is cached, and which fetches are
/// under way.
#[derive(Debug)]
pub struct TrailService {
    overpass_urls: Vec<String>,
    overpass_cache: Option<OverpassCacheEntry>,
    overpass_busy: bool,
    doc_cache: Option<DocCacheEntry>,
    doc_busy: bool,
    doc_api_key: Option<String>,
}

/// The content of an [`OverpassCacheEntry`].
pub struct TileEntry {
    pub fetched_at: u64,
    pub bbox: Bbox,
    pub trails: Seq<TrailView>,
}

/// The content of a [`DocCacheEntry`].
pub struct CatalogueEntry {
    pub fetched_at: u64,
    pub trails: Seq<TrailView>,
}

/// The content of a [`TrailService`].
pub struct ServiceView {
    /// The mirrors of the tile provider, in the order they are tried.
    pub urls: Seq<Seq<char>>,
    /// The last answer of the tile provider.
    pub tiles: Option<TileEntry>,
    /// A fetch from the tile provider is under way.
    pub busy: bool,
    /// The last catalogue of the detail provider.
    pub catalogue: Option<CatalogueEntry>,
    /// A fetch of the catalogue is under way.
    pub catalogue_busy: bool,
    /// The credential for the detail provider.
    pub key: Option<Seq<char>>,
}

/// What to do about the tile provider.
#[derive(Debug)]
pub enum TileStep {
    /// Use these trails; nothing needs to be fetched.
    Serve(Vec<Trail>),
    /// Fetch, and report with [`TrailService::store_overpass`]. No other
    /// fetch is started until then.
    Fetch,
    /// A fetch is under way and nothing is cached. Wait until it has ended,
    /// then ask again with [`TrailService::resume_overpass`].
    Wait,
}

/// The content of a [`TileStep`].
pub enum TileStepView {
    Serve(Seq<TrailView>),
    Fetch,
    Wait,
}

impl View for TileStep {
    type V = TileStepView;

    open spec fn view(&self) -> TileStepView {
        match self {
            TileStep::Serve(trails) => TileStepView::Serve(views(trails@)),
            TileStep::Fetch => TileStepView::Fetch,
            TileStep::Wait => TileStepView::Wait,
        }
    }
}

/// What to do about the detail provider.
#[derive(Debug)]
pub enum DocPlan {
    /// No credential is configured: the provider is left out.
    Skip,
    /// Use these trails; nothing needs to be fetched.
    Serve(Vec<Trail>),
    /// Fetch the whole catalogue with this credential, and report with
    /// [`TrailService::store_doc`]. No other fetch of it is started until
    /// then.
    Fetch(String),
    /// A fetch of the catalogue is under way and nothing is cached. Wait
    /// until it has ended, then ask again with
    /// [`TrailService::resume_doc`].
    Wait,
}

/// The content of a [`DocPlan`].
pub enum DocPlanView {
    Skip,
    Serve(Seq<TrailView>),
    Fetch(Seq<char>),
    Wait,
}

impl View for DocPlan {
    type V = DocPlanView;

    open spec fn view(&self) -> DocPlanView {
        match self {
            DocPlan::Skip => DocPlanView::Skip,
            DocPlan::Serve(trails) => DocPlanView::Serve(views(trails@)),
            DocPlan::Fetch(key) => DocPlanView::Fetch(key@),
            DocPlan::Wait => DocPlanView::Wait,
        }
    }
}

/// What came at `fetched_at` is still good at `now`, for a time to live of
/// `ttl`: less than `ttl` has passed since. A clock that reads earlier than
/// `fetched_at` counts as no time passed.
pub open spec fn is_fresh(fetched_at: u64, now: u64, ttl: u64) -> bool {
    now - fetched_at < ttl
}

/// The box that a query is about: the one it names, else the default
/// region.
pub open spec fn region_of(q: TrailQuery) -> Bbox {
    match Bbox::spec_from_query(q) {
        Some(b) => b,
        None => Bbox::default_region(),
    }
}

impl ServiceView {
    /// The cached answer of the tile provider is for `bbox` and still good.
    pub open spec fn tile_hit(self, bbox: Bbox, now: u64) -> bool {
        self.tiles matches Some(e) && e.bbox == bbox && is_fresh(e.fetched_at, now, OVERPASS_TTL_MS)
    }

    /// The service with a fetch under way.
    pub open spec fn claimed(self) -> ServiceView {
        ServiceView { busy: true, ..self }
    }

    /// What the service does about the tile provider for a caller that has
    /// not waited. A good answer for the same box is served. Failing that,
    /// while a fetch is under way whatever is cached is served, though it be
    /// old or for another box, and only a caller for whom nothing is cached
    /// waits. Otherwise the caller fetches, and a fetch is under way from
    /// then on.
    pub open spec fn begin(self, bbox: Bbox, now: u64) -> (ServiceView, TileStepView) {
        if self.tile_hit(bbox, now) {
            (self, TileStepView::Serve(self.tiles->0.trails))
        } else if self.busy {
            match self.tiles {
                Some(e) => (self, TileStepView::Serve(e.trails)),
                None => (self, TileStepView::Wait),
            }
        } else {
            (self.claimed(), TileStepView::Fetch)
        }
    }

    /// What the service does about the tile provider for a caller that has
    /// waited. While a fetch is under way the caller goes on waiting. Once
    /// none is, a good answer for the same box is served, and otherwise the
    /// caller fetches.
    pub open spec fn resume(self, bbox: Bbox, now: u64) -> (ServiceView, TileStepView) {
        if self.busy {
            (self, TileStepView::Wait)
        } else if self.tile_hit(bbox, now) {
            (self, TileStepView::Serve(self.tiles->0.trails))
        } else {
            (self.claimed(), TileStepView::Fetch)
        }
    }

    /// The service after a fetch from the tile provider has ended: the
    /// answer, if there is one, replaces what was cached, and no fetch is
    /// under way.
    pub open spec fn tiles_stored(
        self,
        bbox: Bbox,
        result: Result<Seq<TrailView>, Seq<char>>,
        now: u64,
    ) -> ServiceView {
        match result {
            Ok(trails) => ServiceView {
                tiles: Some(TileEntry { fetched_at: now, bbox, trails }),
                busy: false,
                ..self
            },
            Err(_) => ServiceView { busy: false, ..self },
        }
    }

    /// The cached catalogue is still good.
    pub open spec fn catalogue_hit(self, now: u64) -> bool {
        self.catalogue matches Some(e) && is_fresh(e.fetched_at, now, DOC_TTL_MS)
    }

    /// The service with a fetch of the catalogue under way.
    pub open spec fn catalogue_claimed(self) -> ServiceView {
        ServiceView { catalogue_busy: true, ..self }
    }

    /// What the service does about the detail provider for a caller that
    /// has not waited. Without a credential, nothing. A catalogue that is
    /// still good is served, cut to the box. Failing that, while a fetch is
    /// under way the catalogue that is cached is served though it be old, and
    /// only a caller for whom nothing is cached waits. Otherwise the caller
    /// fetches, and a fetch is under way from then on.
    pub open spec fn doc_begin(self, bbox: Bbox, now: u64) -> (ServiceView, DocPlanView) {
        match self.key {
            None => (self, DocPlanView::Skip),
            Some(key) => if self.catalogue_hit(now) {
                (self, DocPlanView::Serve(within_view(self.catalogue->0.trails, bbox)))
            } else if self.catalogue_busy {
                match self.catalogue {
                    Some(e) => (self, DocPlanView::Serve(within_view(e.trails, bbox))),
                    None => (self, DocPlanView::Wait),
                }
            } else {
                (self.catalogue_claimed(), DocPlanView::Fetch(key))
            },
        }
    }

    /// What the service does about the detail provider for a caller that
    /// has waited. While a fetch is under way the caller goes on waiting.
    /// Once none is, a catalogue that is still good is served, and otherwise
    /// the caller fetches.
    pub open spec fn doc_resume(self, bbox: Bbox, now: u64) -> (ServiceView, DocPlanView) {
        match self.key {
            None => (self, DocPlanView::Skip),
            Some(key) => if self.catalogue_busy {
                (self, DocPlanView::Wait)
            } else if self.catalogue_hit(now) {
                (self, DocPlanView::Serve(within_view(self.catalogue->0.trails, bbox)))
            } else {
                (self.catalogue_claimed(), DocPlanView::Fetch(key))
            },
        }
    }

    /// The service after a fetch of the catalogue has ended: the catalogue,
    /// if there is one, replaces what was cached, and no fetch is under way.
    pub open spec fn catalogue_stored(
        self,
        result: Result<Seq<TrailView>, Seq<char>>,
        now: u64,
    ) -> ServiceView {
        match result {
            Ok(trails) => ServiceView {
                catalogue: Some(CatalogueEntry { fetched_at: now, trails }),
                catalogue_busy: false,
                ..self
            },
            Err(_) => ServiceView { catalogue_busy: false, ..self },
        }
    }
}

/// The trails of a request: those of the tile provider, then those of the
/// detail provider. Where the detail provider was left out or failed, it
/// adds none.
pub open spec fn merged(
    tiles: Seq<TrailView>,
    details: Option<Result<Seq<TrailView>, Seq<char>>>,
) -> Seq<TrailView> {
    match details {
        Some(Ok(more)) => tiles + more,
        _ => tiles,
    }
}

/// A good answer is served again as it was stored, and nothing is fetched:
/// after an answer for a box has been stored, every caller who asks about
/// the same box before the answer is ten minutes old is served that answer,
/// whether the caller has waited or not.
pub proof fn lemma_hit_after_store(
    s: ServiceView,
    bbox: Bbox,
    trails: Seq<TrailView>,
    stored_at: u64,
    now: u64,
)
    requires
        is_fresh(stored_at, now, OVERPASS_TTL_MS),
    ensures
        ({
            let after = s.tiles_stored(bbox, Ok(trails), stored_at);
            &&& after.begin(bbox, now) == (after, TileStepView::Serve(trails))
            &&& after.resume(bbox, now) == (after, TileStepView::Serve(trails))
        }),
{
}

/// At most one fetch from the tile provider is under way: a caller is told
/// to fetch only while none is, and one is from then on, until its end is
/// reported.
pub proof fn lemma_single_flight(s: ServiceView, bbox: Bbox, now: u64)
    ensures
        s.begin(bbox, now).1 is Fetch ==> !s.busy && s.begin(bbox, now).0.busy,
        s.resume(bbox, now).1 is Fetch ==> !s.busy && s.resume(bbox, now).0.busy,
        !(s.begin(bbox, now).1 is Fetch) ==> s.begin(bbox, now).0 == s,
        !(s.resume(bbox, now).1 is Fetch) ==> s.resume(bbox, now).0 == s,
        s.begin(bbox, now).1 is Wait ==> s.busy && s.tiles is None,
{
}

/// At most one fetch of the catalogue is under way, in the same way.
pub proof fn lemma_single_catalogue_flight(s: ServiceView, bbox: Bbox, now: u64)
    ensures
        s.doc_begin(bbox, now).1 is Fetch ==> !s.catalogue_busy && s.doc_begin(
            bbox,
            now,
        ).0.catalogue_busy,
        s.doc_resume(bbox, now).1 is Fetch ==> !s.catalogue_busy && s.doc_resume(
            bbox,
            now,
        ).0.catalogue_busy,
        !(s.doc_begin(bbox, now).1 is Fetch) ==> s.doc_begin(bbox, now).0 == s,
        !(s.doc_resume(bbox, now).1 is Fetch) ==> s.doc_resume(bbox, now).0 == s,
        s.doc_begin(bbox, now).1 is Wait ==> s.catalogue_busy && s.catalogue is None,
{
}

/// A catalogue that is still good is served again, cut to the box asked
/// about, and nothing is fetched.
pub proof fn lemma_catalogue_hit_after_store(
    s: ServiceView,
    bbox: Bbox,
    trails: Seq<TrailView>,
    stored_at: u64,
    now: u64,
)
    requires
        s.key is Some,
        is_fresh(stored_at, now, DOC_TTL_MS),
    ensures
        ({
            let after = s.catalogue_stored(Ok(trails), stored_at);
            after.doc_begin(bbox, now) == (after, DocPlanView::Serve(within_view(trails, bbox)))
        }),
{
}

/// Without a credential the detail provider adds nothing: the request has
/// the trails of the tile provider and no others.
pub proof fn lemma_without_credential(s: ServiceView, bbox: Bbox, now: u64, tiles: Seq<TrailView>)
    requires
        s.key is None,
    ensures
        s.doc_begin(bbox, now) == (s, DocPlanView::Skip),
        s.doc_resume(bbox, now) == (s, DocPlanView::Skip),
        merged(tiles, None) == tiles,
{
}

/// The content of a cached answer of the tile provider.
pub open spec fn tile_entry(e: Option<OverpassCacheEntry>) -> Option<TileEntry> {
    match e {
        Some(e) => Some(TileEntry { fetched_at: e.fetched_at, bbox: e.bbox, trails: views(e.trails@) }),
        None => None,
    }
}

/// The content of a cached catalogue.
pub open spec fn catalogue_entry(e: Option<DocCacheEntry>) -> Option<CatalogueEntry> {
    match e {
        Some(e) => Some(CatalogueEntry { fetched_at: e.fetched_at, trails: views(e.trails@) }),
        None => None,
    }
}

/// Whether what came at `fetched_at` is still good at `now`.
pub fn fresh(fetched_at: u64, now: u64, ttl: u64) -> (r: bool)
    ensures
        r == is_fresh(fetched_at, now, ttl),
{
    now < fetched_at || now - fetched_at < ttl
}

/// The message of a failed result, and the contents of a good one.
pub open spec fn outcome(result: Result<Vec<Trail>, TrailError>) -> Result<Seq<TrailView>, Seq<char>> {
    match result {
        Ok(trails) => Ok(views(trails@)),
        Err(e) => Err(e@),
    }
}

impl View for TrailService {
    type V = ServiceView;

    closed spec fn view(&self) -> ServiceView {
        ServiceView {
            urls: Seq::new(self.overpass_urls@.len(), |i: int| self.overpass_urls@[i]@),
            tiles: tile_entry(self.overpass_cache),
            busy: self.overpass_busy,
            catalogue: catalogue_entry(self.doc_cache),
            catalogue_busy: self.doc_busy,
            key: opt_text(self.doc_api_key),
        }
    }
}

impl TrailService {
    /// A service that asks the given mirrors of the tile provider, in their
    /// order, and the detail provider if a credential is given. Nothing is
    /// cached yet.
    pub fn new(overpass_urls: Vec<String>, doc_api_key: Option<String>) -> (service: Self)
        ensures
            service@ == (ServiceView {
                urls: Seq::new(overpass_urls@.len(), |i: int| overpass_urls@[i]@),
                tiles: None,
                busy: false,
                catalogue: None,
                catalogue_busy: false,
                key: opt_text(doc_api_key),
            }),
    {
        TrailService {
            overpass_urls,
            overpass_cache: None,
            overpass_busy: false,
            doc_cache: None,
            doc_busy: false,
            doc_api_key,
        }
    }

    /// The mirrors of the tile provider, in the order they are tried.
    pub fn overpass_urls(&self) -> (urls: &Vec<String>)
        ensures
            Seq::new(urls@.len(), |i: int| urls@[i]@) == self@.urls,
    {
        &self.overpass_urls
    }

    /// The box that a query is about; see [`region_of`].
    pub fn region(query: &TrailQuery) -> (bbox: Bbox)
        ensures
            bbox == region_of(*query),
    {
        match Bbox::from_query(query) {
            Some(bbox) => bbox,
            None => Bbox::default(),
        }
    }

    /// A copy of the cached answer of the tile provider.
    fn cached_tiles(&self) -> (r: Option<Vec<Trail>>)
        ensures
            match r {
                Some(trails) => self@.tiles matches Some(e) && e.trails == views(trails@),
                None => self@.tiles is None,
            },
    {
        match &self.overpass_cache {
            Some(e) => Some(clone_trails(&e.trails)),
            None => None,
        }
    }

    /// Whether the cached answer of the tile provider is for `bbox` and
    /// still good.
    fn has_tile_hit(&self, bbox: Bbox, now_ms: u64) -> (r: bool)
        ensures
            r == self@.tile_hit(bbox, now_ms),
    {
        match &self.overpass_cache {
            Some(e) => e.bbox == bbox && fresh(e.fetched_at, now_ms, OVERPASS_TTL_MS),
            None => false,
        }
    }

    /// Says what to do about the tile provider for the box `bbox`, at the
    /// time `now_ms`, for a caller that has not waited; see
    /// [`ServiceView::begin`].
    pub fn begin_overpass(&mut self, bbox: Bbox, now_ms: u64) -> (step: TileStep)
        ensures
            (final(self)@, step@) == old(self)@.begin(bbox, now_ms),
    {
        if self.has_tile_hit(bbox, now_ms) {
            return TileStep::Serve(self.cached_tiles().unwrap());
        }
        if self.overpass_busy {
            return match self.cached_tiles() {
                Some(trails) => TileStep::Serve(trails),
                None => TileStep::Wait,
            };
        }
        self.overpass_busy = true;
        TileStep::Fetch
    }

    /// Says what to do about the tile provider for a caller that was told
    /// to wait and has been woken; see [`ServiceView::resume`].
    pub fn resume_overpass(&mut self, bbox: Bbox, now_ms: u64) -> (step: TileStep)
        ensures
            (final(self)@, step@) == old(self)@.resume(bbox, now_ms),
    {
        if self.overpass_busy {
            return TileStep::Wait;
        }
        if self.has_tile_hit(bbox, now_ms) {
            return TileStep::Serve(self.cached_tiles().unwrap());
        }
        self.overpass_busy = true;
        TileStep::Fetch
    }

    /// Takes the end of a fetch from the tile provider, at the time
    /// `now_ms`. An answer replaces what was cached and is handed back; a
    /// failure is handed back and leaves the cache as it was. Either way no
    /// fetch is under way any more.
    pub fn store_overpass(
        &mut self,
        bbox: Bbox,
        result: Result<Vec<Trail>, TrailError>,
        now_ms: u64,
    ) -> (r: Result<Vec<Trail>, TrailError>)
        ensures
            final(self)@ == old(self)@.tiles_stored(bbox, outcome(result), now_ms),
            outcome(r) == outcome(result),
    {
        self.overpass_busy = false;
        match result {
            Ok(trails) => {
                let copy = clone_trails(&trails);
                self.overpass_cache = Some(OverpassCacheEntry { fetched_at: now_ms, bbox, trails });
                Ok(copy)
            },
            Err(e) => Err(e),
        }
    }

    /// The cached catalogue, cut to `bbox`.
    fn cached_catalogue(&self, bbox: Bbox) -> (r: Option<Vec<Trail>>)
        ensures
            match r {
                Some(trails) => self@.catalogue matches Some(e) && views(trails@) == within_view(
                    e.trails,
                    bbox,
                ),
                None => self@.catalogue is None,
            },
    {
        match &self.doc_cache {
            Some(e) => Some(filter_doc_by_bbox(&e.trails, bbox)),
            None => None,
        }
    }

    /// Whether the cached catalogue is still good.
    fn has_catalogue_hit(&self, now_ms: u64) -> (r: bool)
        ensures
            r == self@.catalogue_hit(now_ms),
    {
        match &self.doc_cache {
            Some(e) => fresh(e.fetched_at, now_ms, DOC_TTL_MS),
            None => false,
        }
    }

    /// Says what to do about the detail provider for the box `bbox`, at the
    /// time `now_ms`, for a caller that has not waited; see
    /// [`ServiceView::doc_begin`].
    pub fn doc_plan(&mut self, bbox: Bbox, now_ms: u64) -> (plan: DocPlan)
        ensures
            (final(self)@, plan@) == old(self)@.doc_begin(bbox, now_ms),
    {
        let key = match &self.doc_api_key {
            Some(key) => key.clone(),
            None => {
                return DocPlan::Skip;
            },
        };
        if self.has_catalogue_hit(now_ms) {
            return DocPlan::Serve(self.cached_catalogue(bbox).unwrap());
        }
        if self.doc_busy {
            return match self.cached_catalogue(bbox) {
                Some(trails) => DocPlan::Serve(trails),
                None => DocPlan::Wait,
            };
        }
        self.doc_busy = true;
        DocPlan::Fetch(key)
    }

    /// Says what to do about the detail provider for a caller that was told
    /// to wait and has been woken; see [`ServiceView::doc_resume`].
    pub fn resume_doc(&mut self, bbox: Bbox, now_ms: u64) -> (plan: DocPlan)
        ensures
            (final(self)@, plan@) == old(self)@.doc_resume(bbox, now_ms),
    {
        let key = match &self.doc_api_key {
            Some(key) => key.clone(),
            None => {
                return DocPlan::Skip;
            },
        };
        if self.doc_busy {
            return DocPlan::Wait;
        }
        if self.has_catalogue_hit(now_ms) {
            return DocPlan::Serve(self.cached_catalogue(bbox).unwrap());
        }
        self.doc_busy = true;
        DocPlan::Fetch(key)
    }

    /// Takes the end of a fetch of the catalogue, at the time `now_ms`. A
    /// catalogue replaces what was cached, and its trails in the box `bbox`
    /// are handed back; a failure is handed back and leaves the cache as it
    /// was. Either way no fetch of the catalogue is under way any more.
    pub fn store_doc(
        &mut self,
        bbox: Bbox,
        result: Result<Vec<Trail>, TrailError>,
        now_ms: u64,
    ) -> (r: Result<Vec<Trail>, TrailError>)
        ensures
            final(self)@ == old(self)@.catalogue_stored(outcome(result), now_ms),
            outcome(r) == match outcome(result) {
                Ok(trails) => Ok(within_view(trails, bbox)),
                Err(e) => Err(e),
            },
    {
        self.doc_busy = false;
        match result {
            Ok(trails) => {
                let inside = filter_doc_by_bbox(&trails, bbox);
                self.doc_cache = Some(DocCacheEntry { fetched_at: now_ms, trails });
                Ok(inside)
            },
            Err(e) => Err(e),
        }
    }

    /// The trails of a request: those of the tile provider, then those of
    /// the detail provider; see [`merged`].
    pub fn combine(tiles: Vec<Trail>, details: Option<Result<Vec<Trail>, TrailError>>) -> (r: Vec<
        Trail,
    >)
        ensures
            views(r@) == merged(
                views(tiles@),
                match details {
                    Some(d) => Some(outcome(d)),
                    None => None,
                },
            ),
    {
        let mut combined = tiles;
        match details {
            Some(Ok(mut more)) => {
                combined.append(&mut more);
            },
            _ => {},
        }
        combined
    }
}

} // verus!
