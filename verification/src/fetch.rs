//! How a fetch from a provider proceeds.
//!
//! A fetch is a little machine. It says which request to make; the driver
//! makes it and reports what came back; the machine says what to do next.
//! The tile provider has several mirrors, tried in order, and asks callers
//! to slow down now and then, which is met by backing off. The detail
//! provider wants one request for its listing and one more for every track
//! in it, of which a few are made at a time.

use vstd::prelude::*;
use vstd::string::StringExecFns;
use crate::doc::{
    asset_id, candidates, describes, doc_candidates, doc_items, doc_trail, extract_doc_items,
    map_doc_track,
};
use crate::geometry::Bbox;
use crate::json::Json;
use crate::model::{views, Trail, TrailError, TrailView};
use crate::overpass::{
    append_overpass_query, map_overpass_elements, osm_trails, overpass_query, query_text, query_url,
    OverpassElement,
};

verus! {

/// How a provider answered one request.
#[derive(Debug)]
pub enum Reply<T> {
    /// The request did not get through; with the reason.
    Unreachable(String),
    /// The provider answered with a status other than success; with the
    /// status and what it sent along.
    Refused { status: String, body: String },
    /// The answer was not of the expected shape; with the reason.
    Unreadable(String),
    /// The answer.
    Answered(T),
}

/// How the tile provider answered one request.
#[derive(Debug)]
pub enum Attempt {
    /// The provider asked to slow down.
    RateLimited,
    /// Any other answer.
    Replied(Reply<Vec<OverpassElement>>),
}

/// What an HTTP status means to a fetch.
#[derive(Clone, Copy, PartialEq, Eq, Structural, Debug)]
pub enum StatusClass {
    /// 429: too many requests.
    RateLimited,
    /// 200 to 299.
    Success,
    /// Any other status.
    Failure,
}

/// What an HTTP status means to a fetch.
pub open spec fn status_class(code: u16) -> StatusClass {
    if code == 429 {
        StatusClass::RateLimited
    } else if 200 <= code <= 299 {
        StatusClass::Success
    } else {
        StatusClass::Failure
    }
}

/// What an HTTP status means to a fetch.
pub fn classify_status(code: u16) -> (class: StatusClass)
    ensures
        class == status_class(code),
{
    if code == 429 {
        StatusClass::RateLimited
    } else if 200 <= code && code <= 299 {
        StatusClass::Success
    } else {
        StatusClass::Failure
    }
}

/// The words for a reply that is no answer, about a request for `what`.
pub open spec fn failure_text<T>(what: Seq<char>, reply: Reply<T>) -> Option<Seq<char>> {
    match reply {
        Reply::Unreachable(reason) => Some(what + " request failed: "@ + reason@),
        Reply::Refused { status, body } => Some(
            what + " request failed with status "@ + status@ + ": "@ + body@,
        ),
        Reply::Unreadable(reason) => Some(what + " response parse failed: "@ + reason@),
        Reply::Answered(_) => None,
    }
}

impl<T> Reply<T> {
    /// The answer, or the error for a reply that is none, about a request
    /// for `what`.
    pub fn into_result(self, what: &str) -> (r: Result<T, TrailError>)
        ensures
            match r {
                Ok(answer) => self == Reply::Answered(answer),
                Err(e) => failure_text(what@, self) == Some(e@),
            },
    {
        match self {
            Reply::Unreachable(reason) => {
                let mut text = what.to_string();
                text.append(" request failed: ");
                text.append(reason.as_str());
                Err(TrailError(text))
            },
            Reply::Refused { status, body } => {
                let mut text = what.to_string();
                text.append(" request failed with status ");
                text.append(status.as_str());
                text.append(": ");
                text.append(body.as_str());
                Err(TrailError(text))
            },
            Reply::Unreadable(reason) => {
                let mut text = what.to_string();
                text.append(" response parse failed: ");
                text.append(reason.as_str());
                Err(TrailError(text))
            },
            Reply::Answered(answer) => Ok(answer),
        }
    }
}

/// The seconds to wait after the provider has asked to slow down on the
/// given attempt: two, doubled with every attempt.
pub open spec fn backoff_secs(attempt: u64) -> u64 {
    if attempt <= 1 {
        2
    } else if attempt == 2 {
        4
    } else {
        8
    }
}

/// Attempts made on one mirror before it is given up.
pub const MAX_ATTEMPTS: u64 = 3;

/// What the driver of a fetch from the tile provider does next.
#[derive(Debug)]
pub enum FetchStep {
    /// Wait for `after_secs` seconds, then ask `url` and report the answer.
    Request { url: String, after_secs: u64 },
    /// Wait for `after_secs` seconds; the fetch has then ended, with these
    /// trails or with this failure.
    Finished { after_secs: u64, result: Result<Vec<Trail>, TrailError> },
}

/// The content of a [`FetchStep`].
pub enum FetchStepView {
    Request { url: Seq<char>, after_secs: u64 },
    Finished { after_secs: u64, result: Result<Seq<TrailView>, Seq<char>> },
}

impl FetchStepView {
    /// The seconds that the step has the driver wait.
    pub open spec fn wait(self) -> u64 {
        match self {
            FetchStepView::Request { after_secs, .. } => after_secs,
            FetchStepView::Finished { after_secs, .. } => after_secs,
        }
    }
}

impl View for FetchStep {
    type V = FetchStepView;

    open spec fn view(&self) -> FetchStepView {
        match self {
            FetchStep::Request { url, after_secs } => FetchStepView::Request {
                url: url@,
                after_secs: *after_secs,
            },
            FetchStep::Finished { after_secs, result: Ok(trails) } => FetchStepView::Finished {
                after_secs: *after_secs,
                result: Ok(views(trails@)),
            },
            FetchStep::Finished { after_secs, result: Err(e) } => FetchStepView::Finished {
                after_secs: *after_secs,
                result: Err(e@),
            },
        }
    }
}

/// A fetch from the tile provider.
#[derive(Debug)]
pub struct OverpassFetch {
    /// The address of the request, for every mirror.
    pub urls: Vec<String>,
    /// The mirror that is being asked; the number of mirrors once all have
    /// failed.
    pub mirror: usize,
    /// The number of the attempt on that mirror, from one.
    pub attempt: u64,
    /// Why the mirror before this one failed.
    pub last_error: Option<TrailError>,
}

/// The content of an [`OverpassFetch`].
pub struct FetchView {
    pub urls: Seq<Seq<char>>,
    pub mirror: int,
    pub attempt: u64,
    pub last_error: Option<Seq<char>>,
}

impl View for OverpassFetch {
    type V = FetchView;

    open spec fn view(&self) -> FetchView {
        FetchView {
            urls: Seq::new(self.urls@.len(), |i: int| self.urls@[i]@),
            mirror: self.mirror as int,
            attempt: self.attempt,
            last_error: match self.last_error {
                Some(e) => Some(e@),
                None => None,
            },
        }
    }
}

impl FetchView {
    /// The fetch with the mirror at hand given up for the reason `error`,
    /// after a wait of `after_secs` seconds: then the next mirror is asked,
    /// and where there is none the fetch ends with `error`.
    pub open spec fn moved_on(self, error: Seq<char>, after_secs: u64) -> (FetchView, FetchStepView) {
        if self.mirror + 1 < self.urls.len() {
            (
                FetchView {
                    mirror: self.mirror + 1,
                    attempt: 1,
                    last_error: Some(error),
                    ..self
                },
                FetchStepView::Request { url: self.urls[self.mirror + 1], after_secs },
            )
        } else {
            (
                FetchView {
                    mirror: self.urls.len() as int,
                    attempt: 1,
                    last_error: Some(error),
                    ..self
                },
                FetchStepView::Finished { after_secs, result: Err(error) },
            )
        }
    }

    /// What the fetch does first: it asks the first mirror, and without any
    /// mirror it ends at once.
    pub open spec fn first(self) -> FetchStepView {
        if 0 <= self.mirror < self.urls.len() {
            FetchStepView::Request { url: self.urls[self.mirror], after_secs: 0 }
        } else {
            FetchStepView::Finished {
                after_secs: 0,
                result: Err(
                    match self.last_error {
                        Some(e) => e,
                        None => "no overpass endpoints configured"@,
                    },
                ),
            }
        }
    }

    /// What the fetch does after an attempt on the mirror at hand. An answer
    /// ends the fetch with the trails of its ways. A mirror that asks to slow
    /// down is backed off from, each time it does: it is asked again after
    /// the wait, and after the third attempt it is given up after the wait,
    /// whether another mirror follows or the fetch ends. Any other reply
    /// gives the mirror up at once.
    pub open spec fn advance(self, attempt: Attempt) -> (FetchView, FetchStepView) {
        match attempt {
            Attempt::Replied(Reply::Answered(elements)) => (
                self,
                FetchStepView::Finished { after_secs: 0, result: Ok(osm_trails(elements@)) },
            ),
            Attempt::RateLimited => if 0 <= self.mirror < self.urls.len() && self.attempt
                < MAX_ATTEMPTS {
                (
                    FetchView { attempt: (self.attempt + 1) as u64, ..self },
                    FetchStepView::Request {
                        url: self.urls[self.mirror],
                        after_secs: backoff_secs(self.attempt),
                    },
                )
            } else {
                self.moved_on("overpass rate limited after retries"@, backoff_secs(self.attempt))
            },
            Attempt::Replied(reply) => self.moved_on(failure_text("overpass"@, reply)->0, 0),
        }
    }
}

impl FetchView {
    /// The fetch is at one of its mirrors or past the last, on one of the
    /// attempts it may make.
    pub open spec fn wf(self) -> bool {
        &&& 0 <= self.mirror <= self.urls.len()
        &&& 1 <= self.attempt <= MAX_ATTEMPTS
    }

    /// The requests that the fetch may still make after the one at hand:
    /// the attempts left on this mirror and three on each one after it.
    pub open spec fn requests_left(self) -> int {
        MAX_ATTEMPTS * (self.urls.len() - self.mirror) - self.attempt
    }
}

/// A fetch comes to an end: every request that it asks for leaves it fewer
/// to ask for, and it asks for none once none are left. So a fetch makes at
/// most three requests to each mirror.
pub proof fn lemma_fetch_ends(f: FetchView, attempt: Attempt)
    requires
        f.wf(),
    ensures
        f.advance(attempt).0.wf(),
        f.advance(attempt).1 is Request ==> 0 <= f.advance(attempt).0.requests_left()
            < f.requests_left(),
        f.requests_left() <= 0 ==> f.advance(attempt).1 is Finished,
{
}

/// The backing off doubles: on the attempts one to three it is two to the
/// power of the attempt.
pub proof fn lemma_backoff_doubles(attempt: u64)
    requires
        1 <= attempt <= 3,
    ensures
        backoff_secs(attempt) == vstd::arithmetic::power2::pow2(attempt as nat),
{
    vstd::arithmetic::power2::lemma2_to64();
}

/// A mirror that asks to slow down three times in a row is waited on for
/// two, four and eight seconds, whichever mirror it is. It is asked again
/// after the first two waits. After the third the next mirror is asked, and
/// where there is none the fetch ends, as rate limited.
pub proof fn lemma_backoff_then_fallback(f: FetchView)
    requires
        0 <= f.mirror < f.urls.len(),
        f.attempt == 1,
    ensures
        ({
            let (f1, s1) = f.advance(Attempt::RateLimited);
            let (f2, s2) = f1.advance(Attempt::RateLimited);
            let (f3, s3) = f2.advance(Attempt::RateLimited);
            &&& s1 == FetchStepView::Request { url: f.urls[f.mirror], after_secs: 2 }
            &&& s2 == FetchStepView::Request { url: f.urls[f.mirror], after_secs: 4 }
            &&& s3.wait() == 8
            &&& f.mirror + 1 < f.urls.len() ==> s3 == FetchStepView::Request {
                url: f.urls[f.mirror + 1],
                after_secs: 8,
            } && f3.mirror == f.mirror + 1 && f3.attempt == 1
            &&& f.mirror + 1 == f.urls.len() ==> s3 == FetchStepView::Finished {
                after_secs: 8,
                result: Err("overpass rate limited after retries"@),
            }
        }),
{
}

/// Every time a mirror asks to slow down, the wait that follows is the one
/// for the attempt, whatever comes after it.
pub proof fn lemma_rate_limit_waits(f: FetchView)
    ensures
        f.advance(Attempt::RateLimited).1.wait() == backoff_secs(f.attempt),
{
}

/// The failure of the last mirror ends the fetch, with that failure, and
/// with no wait unless the mirror asked to slow down.
pub proof fn lemma_last_mirror_fails(f: FetchView, reply: Reply<Vec<OverpassElement>>)
    requires
        f.mirror + 1 >= f.urls.len(),
        !(reply is Answered),
    ensures
        f.advance(Attempt::Replied(reply)).1 == (FetchStepView::Finished {
            after_secs: 0,
            result: Err(failure_text("overpass"@, reply)->0),
        }),
{
}

impl OverpassFetch {
    /// A fetch of the trails in `bbox` from the given mirrors, in their
    /// order.
    pub fn start(mirrors: &Vec<String>, bbox: Bbox) -> (fetch: OverpassFetch)
        ensures
            fetch@.mirror == 0,
            fetch@.attempt == 1,
            fetch@.last_error is None,
            fetch@.urls.len() == mirrors@.len(),
            forall|i: int|
                0 <= i < mirrors@.len() ==> #[trigger] fetch@.urls[i] == query_url(
                    mirrors@[i]@,
                    query_text(bbox),
                ),
    {
        let query = overpass_query(bbox);
        let mut urls: Vec<String> = Vec::new();
        let mut i: usize = 0;
        while i < mirrors.len()
            invariant
                i <= mirrors.len(),
                query@ == query_text(bbox),
                urls@.len() == i,
                forall|k: int|
                    0 <= k < i ==> (#[trigger] urls@[k])@ == query_url(
                        mirrors@[k]@,
                        query_text(bbox),
                    ),
            decreases mirrors.len() - i,
        {
            urls.push(append_overpass_query(mirrors[i].as_str(), query.as_str()));
            i = i + 1;
        }
        OverpassFetch { urls, mirror: 0, attempt: 1, last_error: None }
    }

    /// What to do first; see [`FetchView::first`].
    pub fn first(&self) -> (step: FetchStep)
        ensures
            step@ == self@.first(),
    {
        if self.mirror < self.urls.len() {
            FetchStep::Request { url: self.urls[self.mirror].clone(), after_secs: 0 }
        } else {
            FetchStep::Finished {
                after_secs: 0,
                result: Err(
                    match &self.last_error {
                        Some(e) => e.clone(),
                        None => TrailError::new("no overpass endpoints configured"),
                    },
                ),
            }
        }
    }

    /// Gives up the mirror at hand; see [`FetchView::moved_on`].
    fn move_on(&mut self, error: TrailError, after_secs: u64) -> (step: FetchStep)
        ensures
            (final(self)@, step@) == old(self)@.moved_on(error@, after_secs),
    {
        self.attempt = 1;
        if self.mirror < self.urls.len() && self.mirror + 1 < self.urls.len() {
            self.mirror = self.mirror + 1;
            self.last_error = Some(error);
            let step = FetchStep::Request { url: self.urls[self.mirror].clone(), after_secs };
            step
        } else {
            self.mirror = self.urls.len();
            self.last_error = Some(error.clone());
            FetchStep::Finished { after_secs, result: Err(error) }
        }
    }

    /// Takes what came of the attempt on the mirror at hand and says what
    /// to do next; see [`FetchView::advance`].
    pub fn advance(&mut self, attempt: Attempt) -> (step: FetchStep)
        ensures
            (final(self)@, step@) == old(self)@.advance(attempt),
    {
        match attempt {
            Attempt::RateLimited => {
                let after_secs: u64 = if self.attempt <= 1 {
                    2
                } else if self.attempt == 2 {
                    4
                } else {
                    8
                };
                if self.mirror < self.urls.len() && self.attempt < MAX_ATTEMPTS {
                    self.attempt = self.attempt + 1;
                    let step = FetchStep::Request {
                        url: self.urls[self.mirror].clone(),
                        after_secs,
                    };
                    step
                } else {
                    self.move_on(TrailError::new("overpass rate limited after retries"), after_secs)
                }
            },
            Attempt::Replied(reply) => match reply.into_result("overpass") {
                Ok(elements) => FetchStep::Finished {
                    after_secs: 0,
                    result: Ok(map_overpass_elements(elements)),
                },
                Err(error) => self.move_on(error, 0),
            },
        }
    }
}

/// The address of the listing of the detail provider.
pub open spec fn listing_url() -> Seq<char> {
    "https://api.doc.govt.nz/v1/tracks?coordinates=wgs84"@
}

/// The address of the detail record of a track.
pub open spec fn detail_url(track_id: Seq<char>) -> Seq<char> {
    "https://api.doc.govt.nz/v1/tracks/"@ + track_id + "/detail?coordinates=wgs84"@
}

/// Detail records asked for at a time, at most.
pub const MAX_CONCURRENT: usize = 5;

/// One request for a detail record.
#[derive(Debug)]
pub struct DetailRequest {
    /// The place in the listing of the track asked about. The reply is
    /// reported under it.
    pub slot: usize,
    /// The address to ask.
    pub url: String,
}

/// What the driver of a fetch from the detail provider does next.
#[derive(Debug)]
pub enum DocStep {
    /// Make these requests side by side, and report every reply as it
    /// comes.
    Details(Vec<DetailRequest>),
    /// Replies are still due; go on reporting them.
    Pending,
    /// The fetch has ended, with these trails.
    Finished(Vec<Trail>),
}

/// A fetch of the catalogue of the detail provider, once the listing is
/// there.
#[derive(Debug)]
pub struct DocFetch {
    /// The listing.
    pub listing: Json,
    /// The tracks that can be asked about: place in the listing and
    /// identifier.
    pub candidates: Vec<(usize, String)>,
    /// How many of the candidates have been asked about.
    pub issued: usize,
    /// How many replies are due.
    pub outstanding: usize,
    /// The trails so far, in the order their detail records came.
    pub trails: Vec<Trail>,
}

impl DocFetch {
    /// The candidates are those of the listing, and no more of them are
    /// asked about at a time than may be.
    pub open spec fn wf(self) -> bool {
        &&& self.candidates@.len() == candidates(doc_items(self.listing)).len()
        &&& forall|k: int|
            0 <= k < self.candidates@.len() ==> {
                &&& (#[trigger] self.candidates@[k]).0 == candidates(doc_items(self.listing))[k]
                &&& self.candidates@[k].0 < doc_items(self.listing).len()
                &&& Some(self.candidates@[k].1@) == asset_id(
                    doc_items(self.listing)[self.candidates@[k].0 as int],
                )
            }
        &&& self.issued <= self.candidates@.len()
        &&& self.outstanding <= MAX_CONCURRENT
    }

    /// The address of the listing, asked first.
    pub fn listing_request() -> (url: String)
        ensures
            url@ == listing_url(),
    {
        "https://api.doc.govt.nz/v1/tracks?coordinates=wgs84".to_string()
    }

    /// Takes the reply to the request for the listing. A reply that is no
    /// answer ends the fetch with a failure. An answer opens the fetch of
    /// the detail records: of every track in the listing that carries an
    /// identifier, in the order of the listing.
    pub fn open(reply: Reply<Json>) -> (r: Result<DocFetch, TrailError>)
        ensures
            match r {
                Ok(fetch) => {
                    &&& reply == Reply::Answered(fetch.listing)
                    &&& fetch.wf()
                    &&& fetch.issued == 0
                    &&& fetch.outstanding == 0
                    &&& fetch.trails@.len() == 0
                },
                Err(e) => failure_text("DOC tracks"@, reply) == Some(e@),
            },
    {
        match reply.into_result("DOC tracks") {
            Ok(listing) => {
                let candidates = doc_candidates(extract_doc_items(&listing));
                Ok(DocFetch { listing, candidates, issued: 0, outstanding: 0, trails: Vec::new() })
            },
            Err(e) => Err(e),
        }
    }

    /// Says what to do next. While replies are due, nothing new. Otherwise
    /// the next candidates are asked about, five at most, in their order; and
    /// once all have been, the fetch ends with the trails gathered.
    pub fn next(&mut self) -> (step: DocStep)
        ensures
            old(self).wf() ==> final(self).wf(),
            final(self).listing == old(self).listing,
            final(self).candidates == old(self).candidates,
            match step {
                DocStep::Pending => old(self).outstanding > 0 && *final(self) == *old(self),
                DocStep::Details(requests) => {
                    &&& old(self).outstanding == 0
                    &&& 1 <= requests@.len() <= MAX_CONCURRENT
                    &&& requests@.len() == if old(self).candidates@.len() - old(self).issued
                        < MAX_CONCURRENT {
                        old(self).candidates@.len() - old(self).issued
                    } else {
                        MAX_CONCURRENT as int
                    }
                    &&& forall|k: int|
                        0 <= k < requests@.len() ==> {
                            &&& (#[trigger] requests@[k]).slot == old(self).candidates@[old(
                                self,
                            ).issued + k].0
                            &&& requests@[k].url@ == detail_url(
                                old(self).candidates@[old(self).issued + k].1@,
                            )
                        }
                    &&& final(self).issued == old(self).issued + requests@.len()
                    &&& final(self).outstanding == requests@.len()
                    &&& final(self).trails == old(self).trails
                },
                DocStep::Finished(trails) => {
                    &&& old(self).outstanding == 0
                    &&& old(self).issued >= old(self).candidates@.len()
                    &&& views(trails@) == views(old(self).trails@)
                    &&& final(self).trails@.len() == 0
                    &&& final(self).issued == old(self).issued
                    &&& final(self).outstanding == 0
                },
            },
    {
        if self.outstanding > 0 {
            return DocStep::Pending;
        }
        if self.issued >= self.candidates.len() {
            let mut trails: Vec<Trail> = Vec::new();
            core::mem::swap(&mut trails, &mut self.trails);
            return DocStep::Finished(trails);
        }
        let left: usize = self.candidates.len() - self.issued;
        let count: usize = if left < MAX_CONCURRENT {
            left
        } else {
            MAX_CONCURRENT
        };
        let mut requests: Vec<DetailRequest> = Vec::new();
        let mut k: usize = 0;
        while k < count
            invariant
                k <= count,
                count <= self.candidates@.len() - self.issued,
                count <= MAX_CONCURRENT,
                self.issued <= self.candidates@.len() <= usize::MAX,
                requests@.len() == k,
                forall|m: int|
                    0 <= m < k ==> {
                        &&& (#[trigger] requests@[m]).slot == self.candidates@[self.issued + m].0
                        &&& requests@[m].url@ == detail_url(self.candidates@[self.issued + m].1@)
                    },
            decreases count - k,
        {
            let slot = self.candidates[self.issued + k].0;
            let mut url = "https://api.doc.govt.nz/v1/tracks/".to_string();
            url.append(self.candidates[self.issued + k].1.as_str());
            url.append("/detail?coordinates=wgs84");
            requests.push(DetailRequest { slot, url });
            k = k + 1;
        }
        self.issued = self.issued + count;
        self.outstanding = count;
        DocStep::Details(requests)
    }

    /// Takes the reply to the request for the detail record of the track at
    /// `slot` of the listing. An answer that, with the record of the listing,
    /// describes a trail adds that trail to those gathered. Any other reply
    /// adds nothing: the track is left out, and the fetch goes on. What is
    /// handed back is the failure, if the reply was one, for the record.
    pub fn absorb(&mut self, slot: usize, reply: Reply<Json>) -> (dropped: Option<TrailError>)
        ensures
            match dropped {
                Some(e) => failure_text("DOC detail"@, reply) == Some(e@),
                None => failure_text::<Json>("DOC detail"@, reply) is None,
            },
            old(self).wf() ==> final(self).wf(),
            final(self).listing == old(self).listing,
            final(self).candidates == old(self).candidates,
            final(self).issued == old(self).issued,
            final(self).outstanding == if old(self).outstanding > 0 {
                old(self).outstanding - 1
            } else {
                0
            },
            match reply {
                Reply::Answered(detail) if slot < doc_items(old(self).listing).len() && doc_trail(
                    doc_items(old(self).listing)[slot as int],
                    detail,
                ) is Some => {
                    &&& final(self).trails@.len() == old(self).trails@.len() + 1
                    &&& views(final(self).trails@).drop_last() == views(old(self).trails@)
                    &&& describes(
                        final(self).trails@.last()@,
                        doc_items(old(self).listing)[slot as int],
                        detail,
                    )
                },
                _ => views(final(self).trails@) == views(old(self).trails@),
            },
    {
        if self.outstanding > 0 {
            self.outstanding = self.outstanding - 1;
        }
        match reply.into_result("DOC detail") {
            Ok(detail) => {
                let items = extract_doc_items(&self.listing);
                if slot < items.len() {
                    if let Some(trail) = map_doc_track(&items[slot], &detail) {
                        self.trails.push(trail);
                    }
                }
                None
            },
            Err(e) => Some(e),
        }
    }
}

} // verus!
