//! One request for trails, from the query to the answer.
//!
//! A request first settles the trails of the tile provider and then those of
//! the detail provider, and answers with the first followed by the second.
//! Whatever has to be fetched or waited for on the way is handed to the
//! driver as a stage; the driver does it and reports back to the stage,
//! which gives the next one. A failure of the tile provider fails the
//! request. The detail provider cannot: where it is left out or fails, the
//! request is answered with the trails of the tile provider alone.

use vstd::prelude::*;
use crate::fetch::OverpassFetch;
use crate::geometry::{within_view, Bbox};
use crate::model::{views, Trail, TrailError, TrailQuery, TrailView};
use crate::overpass::{query_text, query_url};
use crate::service::{
    merged, outcome, region_of, DocPlan, DocPlanView, ServiceView, TileStep, TileStepView,
    TrailService,
};

verus! {

/// The stage of a request at which the tile provider is to be asked.
#[derive(Debug)]
pub struct TilesFetching {
    bbox: Bbox,
}

/// The stage of a request at which a fetch from the tile provider, made for
/// another request, is waited for.
#[derive(Debug)]
pub struct TilesWaiting {
    bbox: Bbox,
}

/// The stage of a request at which the catalogue of the detail provider is
/// to be fetched.
#[derive(Debug)]
pub struct CatalogueFetching {
    bbox: Bbox,
    tiles: Vec<Trail>,
}

/// The stage of a request at which a fetch of the catalogue, made for
/// another request, is waited for.
#[derive(Debug)]
pub struct CatalogueWaiting {
    bbox: Bbox,
    tiles: Vec<Trail>,
}

/// How far a request has come, and what its driver does next.
#[derive(Debug)]
pub enum Progress {
    /// Fetch the trails of the stage's box from the tile provider, and
    /// report with [`TilesFetching::fetched`].
    FetchTiles(TilesFetching),
    /// Wait until the fetch in flight has ended, then report with
    /// [`TilesWaiting::woken`].
    AwaitTiles(TilesWaiting),
    /// Fetch the catalogue of the detail provider with this credential,
    /// and report with [`CatalogueFetching::fetched`].
    FetchCatalogue(CatalogueFetching, String),
    /// Wait until the fetch of the catalogue in flight has ended, then
    /// report with [`CatalogueWaiting::woken`].
    AwaitCatalogue(CatalogueWaiting),
    /// The request is answered.
    Done(Result<Vec<Trail>, TrailError>),
}

/// The content of a [`Progress`].
pub enum ProgressView {
    FetchTiles { bbox: Bbox },
    AwaitTiles { bbox: Bbox },
    FetchCatalogue { bbox: Bbox, tiles: Seq<TrailView>, key: Seq<char> },
    AwaitCatalogue { bbox: Bbox, tiles: Seq<TrailView> },
    Done(Result<Seq<TrailView>, Seq<char>>),
}

impl View for TilesFetching {
    type V = Bbox;

    closed spec fn view(&self) -> Bbox {
        self.bbox
    }
}

impl View for TilesWaiting {
    type V = Bbox;

    closed spec fn view(&self) -> Bbox {
        self.bbox
    }
}

impl View for CatalogueFetching {
    type V = (Bbox, Seq<TrailView>);

    closed spec fn view(&self) -> (Bbox, Seq<TrailView>) {
        (self.bbox, views(self.tiles@))
    }
}

impl View for CatalogueWaiting {
    type V = (Bbox, Seq<TrailView>);

    closed spec fn view(&self) -> (Bbox, Seq<TrailView>) {
        (self.bbox, views(self.tiles@))
    }
}

impl View for Progress {
    type V = ProgressView;

    open spec fn view(&self) -> ProgressView {
        match self {
            Progress::FetchTiles(stage) => ProgressView::FetchTiles { bbox: stage@ },
            Progress::AwaitTiles(stage) => ProgressView::AwaitTiles { bbox: stage@ },
            Progress::FetchCatalogue(stage, key) => ProgressView::FetchCatalogue {
                bbox: stage@.0,
                tiles: stage@.1,
                key: key@,
            },
            Progress::AwaitCatalogue(stage) => ProgressView::AwaitCatalogue {
                bbox: stage@.0,
                tiles: stage@.1,
            },
            Progress::Done(result) => ProgressView::Done(outcome(*result)),
        }
    }
}

/// Where a request stands once the tile provider has given `tiles`, for
/// what the service has decided about the detail provider. With nothing to
/// fetch or wait for, the request is answered: with `tiles` alone where the
/// detail provider is left out, else with `tiles` followed by its trails.
pub open spec fn with_tiles(bbox: Bbox, tiles: Seq<TrailView>, plan: DocPlanView) -> ProgressView {
    match plan {
        DocPlanView::Skip => ProgressView::Done(Ok(merged(tiles, None))),
        DocPlanView::Serve(more) => ProgressView::Done(Ok(merged(tiles, Some(Ok(more))))),
        DocPlanView::Fetch(key) => ProgressView::FetchCatalogue { bbox, tiles, key },
        DocPlanView::Wait => ProgressView::AwaitCatalogue { bbox, tiles },
    }
}

/// Where a request stands for what the service has decided about the tile
/// provider. Trails that are served lead straight on to the detail provider,
/// which `plan` decides about.
pub open spec fn with_step(
    s: ServiceView,
    bbox: Bbox,
    step: (ServiceView, TileStepView),
    plan: spec_fn(ServiceView) -> (ServiceView, DocPlanView),
) -> (ServiceView, ProgressView) {
    match step.1 {
        TileStepView::Serve(tiles) => (plan(step.0).0, with_tiles(bbox, tiles, plan(step.0).1)),
        TileStepView::Fetch => (step.0, ProgressView::FetchTiles { bbox }),
        TileStepView::Wait => (step.0, ProgressView::AwaitTiles { bbox }),
    }
}

impl ServiceView {
    /// A request is taken up: the service decides about the tile provider
    /// for the box of the query, and where that needs no fetch and no wait,
    /// about the detail provider at once.
    pub open spec fn request(self, q: TrailQuery, now: u64) -> (ServiceView, ProgressView) {
        with_step(
            self,
            region_of(q),
            self.begin(region_of(q), now),
            |s: ServiceView| s.doc_begin(region_of(q), now),
        )
    }

    /// A request that waited for the tile provider is woken.
    pub open spec fn tiles_woken(self, bbox: Bbox, now: u64) -> (ServiceView, ProgressView) {
        with_step(self, bbox, self.resume(bbox, now), |s: ServiceView| s.doc_begin(bbox, now))
    }

    /// The fetch from the tile provider that a request made has ended. A
    /// failure is the answer to the request. Trails are stored, and lead on
    /// to the detail provider.
    pub open spec fn tiles_fetched(
        self,
        bbox: Bbox,
        result: Result<Seq<TrailView>, Seq<char>>,
        now: u64,
    ) -> (ServiceView, ProgressView) {
        let stored = self.tiles_stored(bbox, result, now);
        match result {
            Ok(tiles) => (
                stored.doc_begin(bbox, now).0,
                with_tiles(bbox, tiles, stored.doc_begin(bbox, now).1),
            ),
            Err(e) => (stored, ProgressView::Done(Err(e))),
        }
    }

    /// A request that waited for the catalogue is woken.
    pub open spec fn catalogue_woken(self, bbox: Bbox, tiles: Seq<TrailView>, now: u64) -> (
        ServiceView,
        ProgressView,
    ) {
        (self.doc_resume(bbox, now).0, with_tiles(bbox, tiles, self.doc_resume(bbox, now).1))
    }

    /// The fetch of the catalogue that a request made has ended. The
    /// request is answered either way: with the trails of the tile provider
    /// followed by those of the catalogue that lie in the box, or, after a
    /// failure, by none.
    pub open spec fn catalogue_fetched(
        self,
        bbox: Bbox,
        tiles: Seq<TrailView>,
        result: Result<Seq<TrailView>, Seq<char>>,
        now: u64,
    ) -> (ServiceView, ProgressView) {
        (
            self.catalogue_stored(result, now),
            ProgressView::Done(
                Ok(
                    merged(
                        tiles,
                        Some(
                            match result {
                                Ok(all) => Ok(within_view(all, bbox)),
                                Err(e) => Err(e),
                            },
                        ),
                    ),
                ),
            ),
        )
    }
}

/// Without a credential the detail provider is never asked, and a request
/// is answered with the trails of the tile provider and no others: with the
/// cached ones where they are served, and with the fetched ones once the
/// fetch has ended.
pub proof fn lemma_request_without_credential(
    s: ServiceView,
    q: TrailQuery,
    bbox: Bbox,
    tiles: Seq<TrailView>,
    now: u64,
)
    requires
        s.key is None,
    ensures
        s.begin(region_of(q), now).1 matches TileStepView::Serve(cached) ==> s.request(q, now).1
            == ProgressView::Done(Ok(cached)),
        s.resume(bbox, now).1 matches TileStepView::Serve(cached) ==> s.tiles_woken(bbox, now).1
            == ProgressView::Done(Ok(cached)),
        s.tiles_fetched(bbox, Ok(tiles), now).1 == ProgressView::Done(Ok(tiles)),
        !(s.request(q, now).1 is FetchCatalogue) && !(s.request(q, now).1 is AwaitCatalogue),
        !(s.tiles_woken(bbox, now).1 is FetchCatalogue) && !(s.tiles_woken(bbox, now).1
            is AwaitCatalogue),
{
}

/// A failure of the tile provider fails the request, with that failure. A
/// failure of the detail provider does not: the request is answered with
/// the trails of the tile provider.
pub proof fn lemma_partial_failure(
    s: ServiceView,
    bbox: Bbox,
    tiles: Seq<TrailView>,
    error: Seq<char>,
    now: u64,
)
    ensures
        s.tiles_fetched(bbox, Err(error), now).1 == ProgressView::Done(Err(error)),
        s.catalogue_fetched(bbox, tiles, Err(error), now).1 == ProgressView::Done(Ok(tiles)),
{
}

/// A request about a box whose answer from the tile provider is still good
/// fetches nothing from the tile provider.
pub proof fn lemma_request_hit(s: ServiceView, q: TrailQuery, now: u64)
    requires
        s.tile_hit(region_of(q), now),
    ensures
        !(s.request(q, now).1 is FetchTiles),
        !(s.request(q, now).1 is AwaitTiles),
        s.request(q, now).0.tiles == s.tiles,
        s.request(q, now).0.busy == s.busy,
{
}

/// Carries served tiles on to the detail provider.
fn after_tiles(bbox: Bbox, tiles: Vec<Trail>, plan: DocPlan) -> (progress: Progress)
    ensures
        progress@ == with_tiles(bbox, views(tiles@), plan@),
{
    match plan {
        DocPlan::Skip => Progress::Done(Ok(TrailService::combine(tiles, None))),
        DocPlan::Serve(more) => Progress::Done(Ok(TrailService::combine(tiles, Some(Ok(more))))),
        DocPlan::Fetch(key) => Progress::FetchCatalogue(CatalogueFetching { bbox, tiles }, key),
        DocPlan::Wait => Progress::AwaitCatalogue(CatalogueWaiting { bbox, tiles }),
    }
}

impl TrailService {
    /// Carries a decision about the tile provider on.
    fn after_step(&mut self, bbox: Bbox, step: TileStep, now_ms: u64) -> (progress: Progress)
        ensures
            (final(self)@, progress@) == with_step(
                old(self)@,
                bbox,
                (old(self)@, step@),
                |s: ServiceView| s.doc_begin(bbox, now_ms),
            ),
    {
        match step {
            TileStep::Serve(tiles) => {
                let plan = self.doc_plan(bbox, now_ms);
                after_tiles(bbox, tiles, plan)
            },
            TileStep::Fetch => Progress::FetchTiles(TilesFetching { bbox }),
            TileStep::Wait => Progress::AwaitTiles(TilesWaiting { bbox }),
        }
    }

    /// Takes up a request for the trails of a query, at the time `now_ms`,
    /// and says how far it gets without fetching or waiting; see
    /// [`ServiceView::request`].
    pub fn fetch_trails(&mut self, query: &TrailQuery, now_ms: u64) -> (progress: Progress)
        ensures
            (final(self)@, progress@) == old(self)@.request(*query, now_ms),
    {
        let bbox = Self::region(query);
        let step = self.begin_overpass(bbox, now_ms);
        self.after_step(bbox, step, now_ms)
    }
}

impl TilesFetching {
    /// The box to ask the tile provider about.
    pub fn bbox(&self) -> (bbox: Bbox)
        ensures
            bbox == self@,
    {
        self.bbox
    }

    /// The fetch to make: of the trails in the box of the stage, from the
    /// mirrors of the service in their order.
    pub fn start(&self, service: &TrailService) -> (fetch: OverpassFetch)
        ensures
            fetch@.mirror == 0,
            fetch@.attempt == 1,
            fetch@.last_error is None,
            fetch@.urls.len() == service@.urls.len(),
            forall|i: int|
                0 <= i < service@.urls.len() ==> #[trigger] fetch@.urls[i] == query_url(
                    service@.urls[i],
                    query_text(self@),
                ),
    {
        OverpassFetch::start(service.overpass_urls(), self.bbox)
    }

    /// Takes the end of the fetch, at the time `now_ms`; see
    /// [`ServiceView::tiles_fetched`].
    pub fn fetched(
        self,
        service: &mut TrailService,
        result: Result<Vec<Trail>, TrailError>,
        now_ms: u64,
    ) -> (progress: Progress)
        ensures
            (final(service)@, progress@) == old(service)@.tiles_fetched(
                self@,
                outcome(result),
                now_ms,
            ),
    {
        match service.store_overpass(self.bbox, result, now_ms) {
            Ok(tiles) => {
                let plan = service.doc_plan(self.bbox, now_ms);
                after_tiles(self.bbox, tiles, plan)
            },
            Err(e) => Progress::Done(Err(e)),
        }
    }
}

impl TilesWaiting {
    /// The box that the request is about.
    pub fn bbox(&self) -> (bbox: Bbox)
        ensures
            bbox == self@,
    {
        self.bbox
    }

    /// Takes the news that the fetch waited for may have ended, at the time
    /// `now_ms`; see [`ServiceView::tiles_woken`].
    pub fn woken(self, service: &mut TrailService, now_ms: u64) -> (progress: Progress)
        ensures
            (final(service)@, progress@) == old(service)@.tiles_woken(self@, now_ms),
    {
        let step = service.resume_overpass(self.bbox, now_ms);
        service.after_step(self.bbox, step, now_ms)
    }
}

impl CatalogueFetching {
    /// Takes the end of the fetch, at the time `now_ms`; see
    /// [`ServiceView::catalogue_fetched`].
    pub fn fetched(
        self,
        service: &mut TrailService,
        result: Result<Vec<Trail>, TrailError>,
        now_ms: u64,
    ) -> (progress: Progress)
        ensures
            (final(service)@, progress@) == old(service)@.catalogue_fetched(
                self@.0,
                self@.1,
                outcome(result),
                now_ms,
            ),
    {
        let stored = service.store_doc(self.bbox, result, now_ms);
        Progress::Done(Ok(TrailService::combine(self.tiles, Some(stored))))
    }
}

impl CatalogueWaiting {
    /// Takes the news that the fetch waited for may have ended, at the time
    /// `now_ms`; see [`ServiceView::catalogue_woken`].
    pub fn woken(self, service: &mut TrailService, now_ms: u64) -> (progress: Progress)
        ensures
            (final(service)@, progress@) == old(service)@.catalogue_woken(
                self@.0,
                self@.1,
                now_ms,
            ),
    {
        let plan = service.resume_doc(self.bbox, now_ms);
        after_tiles(self.bbox, self.tiles, plan)
    }
}

} // verus!
