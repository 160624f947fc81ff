//! Normalising ways of the tile provider, and writing the queries sent to it.
//!
//! The provider answers with elements that carry free-form tags, and for a
//! way either its centre or its geometry. Every named way becomes a trail
//! but those that are tagged as closed to dogs.

use vstd::prelude::*;
use vstd::string::StringExecFns;
use vstd::utf8::encode_utf8;
use crate::fixed::{clamp, clamp_wide, decimal_text, nat_digits, push_nat, signed_micros, Fixed};
use crate::geometry::{Bbox, Point};
use crate::json::{find_member, key_index};
use crate::model::{opt_text, views, Difficulty, DogPolicy, Provider, Trail, TrailView};
use crate::text::{contains_text, percent_encoded, str_contains, str_eq, url_encode};

verus! {

/// One point of a way's geometry.
#[derive(Clone, Copy, PartialEq, Eq, Structural, Debug)]
pub struct OverpassPoint {
    pub lat: Fixed,
    pub lon: Fixed,
    /// The great-circle distance in kilometres from the point before this
    /// one. It does not count on the first point of a geometry.
    pub leg_km: Fixed,
}

/// One element of the provider's answer.
#[derive(Debug)]
pub struct OverpassElement {
    pub element_type: String,
    pub id: u64,
    /// The tags as written. Where a name stands twice, the first counts.
    pub tags: Option<Vec<(String, String)>>,
    pub geometry: Option<Vec<OverpassPoint>>,
    pub center: Option<OverpassPoint>,
}

/// The value of the tag called `key`.
pub open spec fn tag(tags: Seq<(String, String)>, key: Seq<char>) -> Option<Seq<char>> {
    let i = key_index(tags, key);
    if i < tags.len() {
        Some(tags[i as int].1@)
    } else {
        None
    }
}

/// The value of the tag called `key`.
pub fn tag_value<'a>(tags: &'a Vec<(String, String)>, key: &str) -> (r: Option<&'a String>)
    ensures
        match r {
            Some(v) => tag(tags@, key@) == Some(v@),
            None => tag(tags@, key@) is None,
        },
{
    let i = find_member(tags, key);
    if i < tags.len() {
        Some(&tags[i].1)
    } else {
        None
    }
}

/// The value of a `dog` tag says that dogs must be leashed or are welcome
/// under conditions.
pub open spec fn is_restricted(value: Seq<char>) -> bool {
    value == "leashed"@ || value == "on_leash"@ || value == "conditional"@
}

/// The policy that a `dog` tag states. A way without the tag leaves the
/// policy unknown. A tag with a value that is none of those known is read
/// with caution, as closing the way to dogs.
pub open spec fn tagged_dog_policy(value: Option<Seq<char>>) -> DogPolicy {
    match value {
        Some(v) => if v == "yes"@ {
            DogPolicy::Allowed
        } else if is_restricted(v) {
            DogPolicy::Partial
        } else {
            DogPolicy::NotAllowed
        },
        None => DogPolicy::Unknown,
    }
}

/// The note that goes with the policy of a way: what a restriction means,
/// and where to look where the policy is unknown.
pub open spec fn tagged_dog_notes(policy: DogPolicy) -> Option<Seq<char>> {
    match policy {
        DogPolicy::Partial => Some("Dogs must be leashed or have restrictions."@),
        DogPolicy::Unknown => Some("Check the OpenStreetMap page for dog access details."@),
        _ => None,
    }
}

/// The difficulty of a way: the one its `sac_scale` tag states, moderate
/// for a scale that is not known, and without the tag the one assumed for
/// its length.
pub open spec fn tagged_difficulty(sac_scale: Option<Seq<char>>, distance_km: Fixed) -> Difficulty {
    match sac_scale {
        Some(v) => if v == "hiking"@ {
            Difficulty::Easy
        } else if v == "mountain_hiking"@ {
            Difficulty::Moderate
        } else if v == "demanding_mountain_hiking"@ || v == "alpine_hiking"@ {
            Difficulty::Hard
        } else {
            Difficulty::Moderate
        },
        None => Difficulty::spec_for_distance(distance_km),
    }
}

/// The sum of `f` over `points`.
pub open spec fn total(points: Seq<OverpassPoint>, f: spec_fn(OverpassPoint) -> int) -> int
    decreases points.len(),
{
    if points.len() == 0 {
        0
    } else {
        total(points.drop_last(), f) + f(points.last())
    }
}

/// The length of a geometry in kilometres: the sum of its legs, the first
/// point's aside. A geometry of fewer than two points has length zero.
pub open spec fn path_km(points: Seq<OverpassPoint>) -> Fixed {
    if points.len() < 2 {
        Fixed { micros: 0 }
    } else {
        Fixed { micros: clamp(total(points.skip(1), |p: OverpassPoint| p.leg_km.micros as int)) }
    }
}

/// `a / n` rounded towards zero.
pub open spec fn toward_zero(a: int, n: int) -> int {
    if a >= 0 {
        a / n
    } else {
        -((-a) / n)
    }
}

/// The mean position of the points of a geometry.
pub open spec fn centroid(points: Seq<OverpassPoint>) -> Option<Point> {
    if points.len() == 0 {
        None
    } else {
        Some(
            Point {
                lat: Fixed {
                    micros: clamp(
                        toward_zero(
                            total(points, |p: OverpassPoint| p.lat.micros as int),
                            points.len() as int,
                        ),
                    ),
                },
                lon: Fixed {
                    micros: clamp(
                        toward_zero(
                            total(points, |p: OverpassPoint| p.lon.micros as int),
                            points.len() as int,
                        ),
                    ),
                },
            },
        )
    }
}

/// The point that stands for a way: its centre, else the mean of its
/// geometry, else latitude and longitude zero.
pub open spec fn way_position(e: OverpassElement) -> Point {
    match e.center {
        Some(c) => Point { lat: c.lat, lon: c.lon },
        None => match e.geometry {
            Some(points) => match centroid(points@) {
                Some(p) => p,
                None => Point { lat: Fixed { micros: 0 }, lon: Fixed { micros: 0 } },
            },
            None => Point { lat: Fixed { micros: 0 }, lon: Fixed { micros: 0 } },
        },
    }
}

/// The length of a way, zero where it has no geometry.
pub open spec fn way_km(e: OverpassElement) -> Fixed {
    match e.geometry {
        Some(points) => path_km(points@),
        None => Fixed { micros: 0 },
    }
}

/// The ascent that an `ele` tag states, where it is a decimal number.
pub open spec fn tagged_elevation(value: Option<Seq<char>>) -> Option<Fixed> {
    match value {
        Some(v) => match signed_micros(v) {
            Some(m) => Some(Fixed { micros: clamp(m) }),
            None => None,
        },
        None => None,
    }
}

/// `value`, or "Unknown" where there is none.
pub open spec fn or_unknown(value: Option<Seq<char>>) -> Seq<char> {
    match value {
        Some(v) => v,
        None => "Unknown"@,
    }
}

/// The trail that an element describes. There is none for an element
/// without tags or without a name, and none for one whose `dog` tag closes
/// it to dogs. A way without a `dog` tag is a trail of unknown policy.
pub open spec fn osm_trail(e: OverpassElement) -> Option<TrailView> {
    match e.tags {
        None => None,
        Some(tags) => {
            let policy = tagged_dog_policy(tag(tags@, "dog"@));
            if tag(tags@, "name"@) is None || policy == DogPolicy::NotAllowed {
                None
            } else {
                let at = way_position(e);
                Some(
                    TrailView {
                        id: "osm-"@ + nat_digits(e.id as nat),
                        name: tag(tags@, "name"@)->0,
                        provider: Provider::OpenStreetMap,
                        location: or_unknown(tag(tags@, "addr:city"@)),
                        distance_km: way_km(e),
                        elevation_gain_m: tagged_elevation(tag(tags@, "ele"@)),
                        difficulty: tagged_difficulty(tag(tags@, "sac_scale"@), way_km(e)),
                        dog_policy: policy,
                        dog_notes: tagged_dog_notes(policy),
                        surface: or_unknown(tag(tags@, "surface"@)),
                        map_url: "https://www.openstreetmap.org/way/"@ + nat_digits(e.id as nat),
                        lat: at.lat,
                        lon: at.lon,
                        line: Seq::empty(),
                        line_bbox: Bbox::spec_point(at.lat, at.lon),
                    },
                )
            }
        },
    }
}

/// The trails that the ways among `elements` describe, in order. Elements
/// of another type are passed over.
pub open spec fn osm_trails(elements: Seq<OverpassElement>) -> Seq<TrailView>
    decreases elements.len(),
{
    if elements.len() == 0 {
        Seq::empty()
    } else {
        let rest = osm_trails(elements.drop_last());
        let e = elements.last();
        if e.element_type@ == "way"@ && osm_trail(e) is Some {
            rest.push(osm_trail(e)->0)
        } else {
            rest
        }
    }
}

/// No trail of the tile provider is closed to dogs: a way that is, is
/// dropped and never ranked. A trail of unknown policy is one without a
/// `dog` tag.
pub proof fn lemma_osm_trails_not_closed(e: OverpassElement)
    ensures
        osm_trail(e) matches Some(t) ==> t.dog_policy != DogPolicy::NotAllowed,
        osm_trail(e) matches Some(t) ==> (t.dog_policy == DogPolicy::Unknown <==> tag(
            e.tags->0@,
            "dog"@,
        ) is None),
        e.tags matches Some(tags) ==> (tag(tags@, "name"@) is Some && tag(tags@, "dog"@) is None
            ==> osm_trail(e) is Some),
{
}

/// The policy that a `dog` tag states; see [`tagged_dog_policy`].
pub fn map_dog_policy(value: Option<&String>) -> (r: DogPolicy)
    ensures
        r == tagged_dog_policy(
            match value {
                Some(v) => Some(v@),
                None => None,
            },
        ),
{
    match value {
        Some(v) => {
            let v = v.as_str();
            if str_eq(v, "yes") {
                DogPolicy::Allowed
            } else if str_eq(v, "leashed") || str_eq(v, "on_leash") || str_eq(v, "conditional") {
                DogPolicy::Partial
            } else {
                DogPolicy::NotAllowed
            }
        },
        None => DogPolicy::Unknown,
    }
}

/// The note that goes with the policy of a way; see [`tagged_dog_notes`].
pub fn dog_notes_for(policy: DogPolicy) -> (r: Option<String>)
    ensures
        opt_text(r) == tagged_dog_notes(policy),
{
    match policy {
        DogPolicy::Partial => Some("Dogs must be leashed or have restrictions.".to_string()),
        DogPolicy::Unknown => Some(
            "Check the OpenStreetMap page for dog access details.".to_string(),
        ),
        _ => None,
    }
}

/// The difficulty of a way; see [`tagged_difficulty`].
pub fn map_difficulty(sac_scale: Option<&String>, distance_km: Fixed) -> (r: Difficulty)
    ensures
        r == tagged_difficulty(
            match sac_scale {
                Some(v) => Some(v@),
                None => None,
            },
            distance_km,
        ),
{
    match sac_scale {
        Some(scale) => {
            let scale = scale.as_str();
            if str_eq(scale, "hiking") {
                Difficulty::Easy
            } else if str_eq(scale, "mountain_hiking") {
                Difficulty::Moderate
            } else if str_eq(scale, "demanding_mountain_hiking") || str_eq(scale, "alpine_hiking") {
                Difficulty::Hard
            } else {
                Difficulty::Moderate
            }
        },
        None => Difficulty::for_distance(distance_km),
    }
}

/// The sum of `f` over `points[from..]`, for an `f` that stays within the
/// range of `i64`.
proof fn lemma_total_bound(points: Seq<OverpassPoint>, f: spec_fn(OverpassPoint) -> int)
    requires
        forall|p: OverpassPoint| i64::MIN <= #[trigger] f(p) <= i64::MAX,
    ensures
        points.len() * (i64::MIN as int) <= total(points, f) <= points.len() * (i64::MAX as int),
    decreases points.len(),
{
    if points.len() > 0 {
        lemma_total_bound(points.drop_last(), f);
    }
}

/// One more term of a sum over a prefix.
proof fn lemma_total_step(
    points: Seq<OverpassPoint>,
    f: spec_fn(OverpassPoint) -> int,
    from: int,
    i: int,
)
    requires
        0 <= from <= i < points.len(),
    ensures
        total(points.subrange(from, i + 1), f) == total(points.subrange(from, i), f) + f(
            points[i],
        ),
{
    assert(points.subrange(from, i + 1).drop_last() =~= points.subrange(from, i));
}

/// The length of a geometry in kilometres; see [`path_km`].
pub fn compute_distance_km(points: &[OverpassPoint]) -> (r: Fixed)
    ensures
        r == path_km(points@),
{
    if points.len() < 2 {
        return Fixed::zero();
    }
    let ghost f = |p: OverpassPoint| p.leg_km.micros as int;
    let mut sum: i128 = 0;
    let mut i: usize = 1;
    while i < points.len()
        invariant
            1 <= i <= points.len(),
            f == |p: OverpassPoint| p.leg_km.micros as int,
            sum == total(points@.subrange(1, i as int), f),
        decreases points.len() - i,
    {
        proof {
            lemma_total_step(points@, f, 1, i as int);
            lemma_total_bound(points@.subrange(1, i as int), f);
        }
        sum = sum + (points[i].leg_km.micros as i128);
        i = i + 1;
    }
    Fixed { micros: clamp_wide(sum) }
}

/// `a / n` rounded towards zero, forced into the range of `i64`.
fn mean(a: i128, n: usize) -> (r: Fixed)
    requires
        n > 0,
    ensures
        r.micros == clamp(toward_zero(a as int, n as int)),
{
    Fixed { micros: clamp_wide(a / (n as i128)) }
}

/// The mean position of the points of a geometry; `None` for an empty one.
pub fn compute_centroid(points: &[OverpassPoint]) -> (r: Option<Point>)
    ensures
        r == centroid(points@),
{
    if points.len() == 0 {
        return None;
    }
    let ghost lat_of = |p: OverpassPoint| p.lat.micros as int;
    let ghost lon_of = |p: OverpassPoint| p.lon.micros as int;
    let mut lat: i128 = 0;
    let mut lon: i128 = 0;
    let mut i: usize = 0;
    while i < points.len()
        invariant
            i <= points.len(),
            lat_of == |p: OverpassPoint| p.lat.micros as int,
            lon_of == |p: OverpassPoint| p.lon.micros as int,
            lat == total(points@.subrange(0, i as int), lat_of),
            lon == total(points@.subrange(0, i as int), lon_of),
        decreases points.len() - i,
    {
        proof {
            lemma_total_step(points@, lat_of, 0, i as int);
            lemma_total_step(points@, lon_of, 0, i as int);
            lemma_total_bound(points@.subrange(0, i as int), lat_of);
            lemma_total_bound(points@.subrange(0, i as int), lon_of);
        }
        lat = lat + (points[i].lat.micros as i128);
        lon = lon + (points[i].lon.micros as i128);
        i = i + 1;
    }
    assert(points@.subrange(0, points@.len() as int) =~= points@);
    Some(Point { lat: mean(lat, points.len()), lon: mean(lon, points.len()) })
}

/// A copy of the tag called `key`, or "Unknown" where the way has none.
fn tag_or_unknown(tags: &Vec<(String, String)>, key: &str) -> (r: String)
    ensures
        r@ == or_unknown(tag(tags@, key@)),
{
    match tag_value(tags, key) {
        Some(v) => v.clone(),
        None => "Unknown".to_string(),
    }
}

/// `prefix` followed by the decimal digits of `id`.
fn numbered(prefix: &str, id: u64) -> (r: String)
    ensures
        r@ == prefix@ + nat_digits(id as nat),
{
    let mut out = prefix.to_string();
    push_nat(&mut out, id);
    out
}

/// The trail that an element describes; see [`osm_trail`].
pub fn map_overpass_element(element: OverpassElement) -> (r: Option<Trail>)
    ensures
        match r {
            Some(t) => osm_trail(element) == Some(t@) && t@.wf(),
            None => osm_trail(element) is None,
        },
{
    let tags = match &element.tags {
        Some(tags) => tags,
        None => {
            return None;
        },
    };
    let name = match tag_value(tags, "name") {
        Some(name) => name.clone(),
        None => {
            return None;
        },
    };
    let dog_policy = map_dog_policy(tag_value(tags, "dog"));
    if dog_policy == DogPolicy::NotAllowed {
        return None;
    }
    let dog_notes = dog_notes_for(dog_policy);
    let surface = tag_or_unknown(tags, "surface");
    let distance_km = match &element.geometry {
        Some(points) => compute_distance_km(points.as_slice()),
        None => Fixed::zero(),
    };
    let difficulty = map_difficulty(tag_value(tags, "sac_scale"), distance_km);
    let location = tag_or_unknown(tags, "addr:city");
    let map_url = numbered("https://www.openstreetmap.org/way/", element.id);
    let origin = Point { lat: Fixed::zero(), lon: Fixed::zero() };
    let at = match &element.center {
        Some(c) => Point { lat: c.lat, lon: c.lon },
        None => match &element.geometry {
            Some(points) => match compute_centroid(points.as_slice()) {
                Some(p) => p,
                None => origin,
            },
            None => origin,
        },
    };
    let elevation_gain_m = match tag_value(tags, "ele") {
        Some(v) => Fixed::parse(v.as_str()),
        None => None,
    };
    let trail = Trail {
        id: numbered("osm-", element.id),
        name,
        provider: Provider::OpenStreetMap,
        location,
        distance_km,
        elevation_gain_m,
        difficulty,
        dog_policy,
        dog_notes,
        surface,
        map_url,
        lat: at.lat,
        lon: at.lon,
        line: Vec::new(),
        line_bbox: Bbox::point(at.lat, at.lon),
    };
    Some(trail)
}

/// The trails that the ways among `elements` describe, in order; see
/// [`osm_trails`].
pub fn map_overpass_elements(elements: Vec<OverpassElement>) -> (r: Vec<Trail>)
    ensures
        views(r@) == osm_trails(elements@),
{
    let ghost all = elements@;
    let mut out: Vec<Trail> = Vec::new();
    for e in it: elements
        invariant
            it.seq() == all,
            views(out@) == osm_trails(all.take(it.index() as int)),
    {
        proof {
            assert(all.take(it.index() + 1).drop_last() =~= all.take(it.index() as int));
        }
        if str_eq(e.element_type.as_str(), "way") {
            if let Some(t) = map_overpass_element(e) {
                out.push(t);
            }
        }
    }
    assert(all.take(all.len() as int) =~= all);
    out
}

/// The four bounds of a box as the provider wants them: south, west, north,
/// east, separated by commas.
pub open spec fn bounds_text(b: Bbox) -> Seq<char> {
    decimal_text(b.min_lat.micros as int) + ","@ + decimal_text(b.min_lon.micros as int) + ","@
        + decimal_text(b.max_lat.micros as int) + ","@ + decimal_text(b.max_lon.micros as int)
}

/// The query that asks for every path, footway and hiking route in a box
/// that carries a `dog` tag, with tags and centre.
pub open spec fn query_text(b: Bbox) -> Seq<char> {
    "[out:json][timeout:25];(way[highway=path][dog]("@ + bounds_text(b)
        + ");way[highway=footway][dog]("@ + bounds_text(b) + ");way[route=hiking][dog]("@
        + bounds_text(b) + "););out tags center;"@
}

/// The address that puts `query` to the endpoint `base_url`: the query is
/// percent-encoded and appended as the parameter `data`, after `&` where the
/// endpoint already has a `?`, after `?` where it has none.
pub open spec fn query_url(base_url: Seq<char>, query: Seq<char>) -> Seq<char> {
    base_url + if contains_text(base_url, "?"@) {
        "&data="@
    } else {
        "?data="@
    } + percent_encoded(encode_utf8(query))
}

/// The four bounds of a box, separated by commas; see [`bounds_text`].
fn bounds(b: &Bbox) -> (r: String)
    ensures
        r@ == bounds_text(*b),
{
    let mut out = b.min_lat.to_text();
    out.append(",");
    out.append(b.min_lon.to_text().as_str());
    out.append(",");
    out.append(b.max_lat.to_text().as_str());
    out.append(",");
    out.append(b.max_lon.to_text().as_str());
    out
}

/// The query for the ways of a box; see [`query_text`].
pub fn overpass_query(bbox: Bbox) -> (r: String)
    ensures
        r@ == query_text(bbox),
{
    let area = bounds(&bbox);
    let mut out = "[out:json][timeout:25];(way[highway=path][dog](".to_string();
    out.append(area.as_str());
    out.append(");way[highway=footway][dog](");
    out.append(area.as_str());
    out.append(");way[route=hiking][dog](");
    out.append(area.as_str());
    out.append("););out tags center;");
    out
}

/// The address that puts `query` to the endpoint `base_url`; see
/// [`query_url`].
pub fn append_overpass_query(base_url: &str, query: &str) -> (r: String)
    ensures
        r@ == query_url(base_url@, query@),
{
    let encoded = url_encode(query);
    let mut out = base_url.to_string();
    if str_contains(base_url, "?") {
        out.append("&data=");
    } else {
        out.append("?data=");
    }
    out.append(encoded.as_str());
    out
}

} // verus!
