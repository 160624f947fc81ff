//! Points, bounding boxes and the little arithmetic done on them.

use vstd::prelude::*;
use crate::fixed::{decimal_text, Fixed};
use crate::model::{views, Trail, TrailQuery, TrailView};

verus! {

/// A position, in degrees.
#[derive(Clone, Copy, PartialEq, Eq, Structural, Debug)]
pub struct Point {
    pub lat: Fixed,
    pub lon: Fixed,
}

/// A rectangle of latitudes and longitudes. It serves both as the key of
/// cached results, compared exactly, and as a filter on where trails lie.
#[derive(Clone, Copy, PartialEq, Eq, Structural, Debug)]
pub struct Bbox {
    pub min_lat: Fixed,
    pub min_lon: Fixed,
    pub max_lat: Fixed,
    pub max_lon: Fixed,
}

impl Bbox {
    /// The lower corner is not beyond the upper one on either axis.
    pub open spec fn wf(self) -> bool {
        &&& self.min_lat.micros <= self.max_lat.micros
        &&& self.min_lon.micros <= self.max_lon.micros
    }

    /// The two boxes share at least one point.
    pub open spec fn intersects(self, other: Bbox) -> bool {
        &&& self.min_lat.micros <= other.max_lat.micros
        &&& self.max_lat.micros >= other.min_lat.micros
        &&& self.min_lon.micros <= other.max_lon.micros
        &&& self.max_lon.micros >= other.min_lon.micros
    }

    /// The point lies in the box, edges included.
    pub open spec fn covers(self, p: Point) -> bool {
        &&& self.min_lat.micros <= p.lat.micros <= self.max_lat.micros
        &&& self.min_lon.micros <= p.lon.micros <= self.max_lon.micros
    }

    /// The box that holds exactly one point.
    pub open spec fn spec_point(lat: Fixed, lon: Fixed) -> Bbox {
        Bbox { min_lat: lat, min_lon: lon, max_lat: lat, max_lon: lon }
    }

    /// The region searched when a query names none: the city of
    /// Christchurch.
    pub open spec fn default_region() -> Bbox {
        Bbox {
            min_lat: Fixed { micros: -43_600_000i64 },
            min_lon: Fixed { micros: 172_500_000 },
            max_lat: Fixed { micros: -43_450_000i64 },
            max_lon: Fixed { micros: 172_770_000 },
        }
    }

    /// The box a query names, where it names all four corners.
    pub open spec fn spec_from_query(query: TrailQuery) -> Option<Bbox> {
        if query.min_lat is Some && query.min_lon is Some && query.max_lat is Some
            && query.max_lon is Some {
            Some(
                Bbox {
                    min_lat: query.min_lat->0,
                    min_lon: query.min_lon->0,
                    max_lat: query.max_lat->0,
                    max_lon: query.max_lon->0,
                },
            )
        } else {
            None
        }
    }

    /// The box that holds exactly one point.
    pub fn point(lat: Fixed, lon: Fixed) -> (b: Bbox)
        ensures
            b == Bbox::spec_point(lat, lon),
            b.wf(),
    {
        Bbox { min_lat: lat, min_lon: lon, max_lat: lat, max_lon: lon }
    }

    /// The box a query names, where it names all four corners.
    pub fn from_query(query: &TrailQuery) -> (b: Option<Bbox>)
        ensures
            b == Bbox::spec_from_query(*query),
    {
        match (query.min_lat, query.min_lon, query.max_lat, query.max_lon) {
            (Some(min_lat), Some(min_lon), Some(max_lat), Some(max_lon)) => Some(
                Bbox { min_lat, min_lon, max_lat, max_lon },
            ),
            _ => None,
        }
    }

    /// The four bounds by name, each with its number as text.
    pub open spec fn spec_to_query(self) -> Seq<(Seq<char>, Seq<char>)> {
        seq![
            ("min_lat"@, decimal_text(self.min_lat.micros as int)),
            ("min_lon"@, decimal_text(self.min_lon.micros as int)),
            ("max_lat"@, decimal_text(self.max_lat.micros as int)),
            ("max_lon"@, decimal_text(self.max_lon.micros as int)),
        ]
    }

    /// The four bounds by name, each with its number as text, as they are
    /// sent in a request.
    pub fn to_query(&self) -> (pairs: Vec<(String, String)>)
        ensures
            pairs@.len() == 4,
            forall|i: int|
                0 <= i < 4 ==> ((#[trigger] pairs@[i]).0@, pairs@[i].1@) == self.spec_to_query()[i],
    {
        let mut pairs: Vec<(String, String)> = Vec::new();
        pairs.push(("min_lat".to_string(), self.min_lat.to_text()));
        pairs.push(("min_lon".to_string(), self.min_lon.to_text()));
        pairs.push(("max_lat".to_string(), self.max_lat.to_text()));
        pairs.push(("max_lon".to_string(), self.max_lon.to_text()));
        pairs
    }

    /// The box with `p` added to it.
    pub fn extend(&self, p: Point) -> (b: Bbox)
        ensures
            b.min_lat.micros == if p.lat.micros < self.min_lat.micros {
                p.lat.micros
            } else {
                self.min_lat.micros
            },
            b.max_lat.micros == if p.lat.micros > self.max_lat.micros {
                p.lat.micros
            } else {
                self.max_lat.micros
            },
            b.min_lon.micros == if p.lon.micros < self.min_lon.micros {
                p.lon.micros
            } else {
                self.min_lon.micros
            },
            b.max_lon.micros == if p.lon.micros > self.max_lon.micros {
                p.lon.micros
            } else {
                self.max_lon.micros
            },
    {
        Bbox {
            min_lat: if p.lat.micros < self.min_lat.micros {
                p.lat
            } else {
                self.min_lat
            },
            min_lon: if p.lon.micros < self.min_lon.micros {
                p.lon
            } else {
                self.min_lon
            },
            max_lat: if p.lat.micros > self.max_lat.micros {
                p.lat
            } else {
                self.max_lat
            },
            max_lon: if p.lon.micros > self.max_lon.micros {
                p.lon
            } else {
                self.max_lon
            },
        }
    }
}

impl Default for Bbox {
    fn default() -> (b: Self)
        ensures
            b == Bbox::default_region(),
            b.wf(),
    {
        Bbox {
            min_lat: Fixed { micros: -43_600_000 },
            min_lon: Fixed { micros: 172_500_000 },
            max_lat: Fixed { micros: -43_450_000 },
            max_lon: Fixed { micros: 172_770_000 },
        }
    }
}

/// Whether two boxes share at least one point. Boxes that only touch do.
pub fn bbox_intersects(a: Bbox, b: Bbox) -> (r: bool)
    ensures
        r == a.intersects(b),
{
    a.min_lat.micros <= b.max_lat.micros && a.max_lat.micros >= b.min_lat.micros
        && a.min_lon.micros <= b.max_lon.micros && a.max_lon.micros >= b.min_lon.micros
}

/// Intersection does not depend on the order of the two boxes.
pub proof fn lemma_intersects_symmetric(a: Bbox, b: Bbox)
    ensures
        a.intersects(b) == b.intersects(a),
{
}

/// A box whose corners are in order intersects itself.
pub proof fn lemma_intersects_self(a: Bbox)
    requires
        a.wf(),
    ensures
        a.intersects(a),
{
}

/// Two boxes intersect exactly when some point lies in both.
pub proof fn lemma_intersects_shares_point(a: Bbox, b: Bbox)
    requires
        a.wf(),
        b.wf(),
    ensures
        a.intersects(b) <==> exists|p: Point| a.covers(p) && b.covers(p),
{
    if a.intersects(b) {
        let lat = if a.min_lat.micros >= b.min_lat.micros {
            a.min_lat
        } else {
            b.min_lat
        };
        let lon = if a.min_lon.micros >= b.min_lon.micros {
            a.min_lon
        } else {
            b.min_lon
        };
        let p = Point { lat, lon };
        assert(a.covers(p) && b.covers(p));
    }
}

/// `b` is the smallest box that holds every point of `pts`: it covers them
/// all, and each of its four bounds is reached by one of them.
pub open spec fn is_bounding_box(b: Bbox, pts: Seq<Point>) -> bool {
    &&& forall|i: int| 0 <= i < pts.len() ==> b.covers(#[trigger] pts[i])
    &&& exists|i: int| 0 <= i < pts.len() && (#[trigger] pts[i]).lat == b.min_lat
    &&& exists|i: int| 0 <= i < pts.len() && (#[trigger] pts[i]).lat == b.max_lat
    &&& exists|i: int| 0 <= i < pts.len() && (#[trigger] pts[i]).lon == b.min_lon
    &&& exists|i: int| 0 <= i < pts.len() && (#[trigger] pts[i]).lon == b.max_lon
}

/// A list of points has at most one bounding box.
pub proof fn lemma_bounding_box_unique(a: Bbox, b: Bbox, pts: Seq<Point>)
    requires
        is_bounding_box(a, pts),
        is_bounding_box(b, pts),
    ensures
        a == b,
{
}

/// A bounding box has its corners in order.
pub proof fn lemma_bounding_box_wf(b: Bbox, pts: Seq<Point>)
    requires
        is_bounding_box(b, pts),
    ensures
        b.wf(),
        pts.len() > 0,
{
}

/// The smallest box that holds every point of `points`; `None` where there
/// is no point.
pub fn bounding_box(points: &Vec<Point>) -> (r: Option<Bbox>)
    ensures
        r is Some <==> points@.len() > 0,
        r matches Some(b) ==> is_bounding_box(b, points@),
{
    if points.len() == 0 {
        return None;
    }
    let mut b = Bbox::point(points[0].lat, points[0].lon);
    let mut i: usize = 1;
    assert(is_bounding_box(b, points@.take(1))) by {
        assert(points@.take(1)[0] == points@[0]);
    }
    while i < points.len()
        invariant
            1 <= i <= points.len(),
            is_bounding_box(b, points@.take(i as int)),
        decreases points.len() - i,
    {
        let ghost before = points@.take(i as int);
        let ghost after = points@.take(i + 1);
        let ghost old_b = b;
        let p = points[i];
        b = b.extend(p);
        proof {
            assert forall|k: int| 0 <= k < after.len() implies b.covers(#[trigger] after[k]) by {
                if k < i {
                }
            }
            let k1 = choose|k: int| 0 <= k < before.len() && (#[trigger] before[k]).lat == old_b.min_lat;
            let k2 = choose|k: int| 0 <= k < before.len() && (#[trigger] before[k]).lat == old_b.max_lat;
            let k3 = choose|k: int| 0 <= k < before.len() && (#[trigger] before[k]).lon == old_b.min_lon;
            let k4 = choose|k: int| 0 <= k < before.len() && (#[trigger] before[k]).lon == old_b.max_lon;
            assert(after[k1] == before[k1] && after[k2] == before[k2] && after[k3] == before[k3]
                && after[k4] == before[k4]);
            let m1 = if p.lat.micros < old_b.min_lat.micros { i as int } else { k1 };
            let m2 = if p.lat.micros > old_b.max_lat.micros { i as int } else { k2 };
            let m3 = if p.lon.micros < old_b.min_lon.micros { i as int } else { k3 };
            let m4 = if p.lon.micros > old_b.max_lon.micros { i as int } else { k4 };
            assert(after[m2].lat == b.max_lat);
            assert(after[m3].lon == b.min_lon);
            assert(after[m4].lon == b.max_lon);
        }
        i = i + 1;
    }
    assert(points@.take(points@.len() as int) =~= points@);
    Some(b)
}

/// The trails, in their order, whose box intersects `view`.
pub open spec fn within_view(trails: Seq<TrailView>, view: Bbox) -> Seq<TrailView> {
    trails.filter(|t: TrailView| view.intersects(t.line_bbox))
}

/// Keeps the trails whose box intersects `view`, in their order.
pub fn filter_doc_by_bbox(trails: &Vec<Trail>, view: Bbox) -> (kept: Vec<Trail>)
    ensures
        views(kept@) == within_view(views(trails@), view),
{
    let ghost all = views(trails@);
    let ghost pred = |t: TrailView| view.intersects(t.line_bbox);
    let mut kept: Vec<Trail> = Vec::new();
    let mut i: usize = 0;
    while i < trails.len()
        invariant
            i <= trails.len(),
            all == views(trails@),
            pred == |t: TrailView| view.intersects(t.line_bbox),
            views(kept@) == all.take(i as int).filter(pred),
        decreases trails.len() - i,
    {
        proof {
            reveal(Seq::filter);
            assert(all.take(i + 1).drop_last() =~= all.take(i as int));
        }
        if bbox_intersects(view, trails[i].line_bbox) {
            kept.push(trails[i].clone());
        }
        i = i + 1;
    }
    assert(all.take(trails@.len() as int) =~= all);
    kept
}

} // verus!
