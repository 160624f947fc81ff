//! Normalising records of the detail provider.
//!
//! The provider describes a track twice, in a summary and in a detail
//! record, and neither has a fixed shape. Every fact is looked up in the
//! detail record first and in the summary second; see [`crate::lookup`].
//! A track without a name is no trail; every other fact has a default.

use vstd::prelude::*;
use vstd::string::StringExecFns;
use crate::fixed::Fixed;
use crate::geometry::{bounding_box, is_bounding_box, lemma_bounding_box_unique, Bbox, Point};
use crate::json::Json;
use crate::lookup::{
    doc_bool_any, doc_number, doc_number_any, doc_string_any, flag_any, number_any, number_in,
    text_any,
};
use crate::model::{opt_text, Difficulty, DogPolicy, Provider, Trail, TrailView};
use crate::overpass::{osm_trail, OverpassElement};
use crate::text::{
    contains_text, lowercase, names, replace_char, replaced, str_contains, to_lowercase,
};

verus! {

/// The names under which a track's name may stand.
pub open spec fn name_keys() -> Seq<Seq<char>> {
    seq!["name"@, "trackName"@, "title"@]
}

/// The names under which the place of a track may stand.
pub open spec fn location_keys() -> Seq<Seq<char>> {
    seq![
        "locationString"@,
        "locationArray"@,
        "location"@,
        "region"@,
        "district"@,
        "place"@,
        "area"@,
    ]
}

/// The names under which the surface of a track may stand.
pub open spec fn surface_keys() -> Seq<Seq<char>> {
    seq!["surface"@, "trackSurface"@, "terrain"@]
}

/// The names under which the length of a track may stand.
pub open spec fn distance_keys() -> Seq<Seq<char>> {
    seq!["distance"@, "distanceKm"@, "length"@, "trackLength"@]
}

/// The names under which the difficulty of a track may stand.
pub open spec fn difficulty_keys() -> Seq<Seq<char>> {
    seq!["difficulty"@, "grade"@, "trackGrade"@, "walkTrackCategory"@]
}

/// The names under which a link to the track may stand.
pub open spec fn url_keys() -> Seq<Seq<char>> {
    seq!["staticLink"@, "url"@, "webUrl"@, "docUrl"@, "link"@]
}

/// The names of the flag that says whether dogs are allowed.
pub open spec fn dogs_allowed_keys() -> Seq<Seq<char>> {
    seq!["dogsAllowed"@, "dogAllowed"@]
}

/// The names of the flag that says whether dogs must be on a lead.
pub open spec fn dogs_on_lead_keys() -> Seq<Seq<char>> {
    seq!["dogsAllowedOnLead"@, "dogsOnLead"@]
}

/// The names under which rules for dogs may stand in words.
pub open spec fn dog_text_keys() -> Seq<Seq<char>> {
    seq!["dogsAllowed"@, "dogAccess"@, "dogs"@, "dogRules"@]
}

/// The names under which a latitude may stand.
pub open spec fn latitude_keys() -> Seq<Seq<char>> {
    seq!["latitude"@, "lat"@, "y"@]
}

/// The names under which a longitude may stand.
pub open spec fn longitude_keys() -> Seq<Seq<char>> {
    seq!["longitude"@, "lon"@, "lng"@, "x"@]
}

/// The difficulty that a lowercase description states, if any: the first
/// of easy; moderate or intermediate; hard, advanced or expert that it
/// mentions.
pub open spec fn text_difficulty(lower: Seq<char>) -> Option<Difficulty> {
    if contains_text(lower, "easy"@) {
        Some(Difficulty::Easy)
    } else if contains_text(lower, "moderate"@) || contains_text(lower, "intermediate"@) {
        Some(Difficulty::Moderate)
    } else if contains_text(lower, "hard"@) || contains_text(lower, "advanced"@) || contains_text(
        lower,
        "expert"@,
    ) {
        Some(Difficulty::Hard)
    } else {
        None
    }
}

/// The difficulty that the records state in words.
pub open spec fn stated_difficulty(primary: Json, secondary: Json) -> Option<Difficulty> {
    match text_any(primary, secondary, difficulty_keys()) {
        Some(t) => text_difficulty(lowercase(t)),
        None => None,
    }
}

/// The dog policy that a lowercase rule states: a rule that mentions both
/// "no" and "dog" forbids; one that mentions a lead, a leash or control
/// restricts; any other allows.
pub open spec fn text_dog_policy(lower: Seq<char>) -> DogPolicy {
    if contains_text(lower, "no"@) && contains_text(lower, "dog"@) {
        DogPolicy::NotAllowed
    } else if contains_text(lower, "lead"@) || contains_text(lower, "leash"@) || contains_text(
        lower,
        "controlled"@,
    ) {
        DogPolicy::Partial
    } else {
        DogPolicy::Allowed
    }
}

/// The dog policy of a track and the note that goes with it. In order of
/// precedence: the flag that forbids dogs; the flag that allows them, with
/// or without the flag for a lead; a rule in words; and where there is no
/// indication at all, unknown.
pub open spec fn dog_policy_of(primary: Json, secondary: Json) -> (DogPolicy, Option<Seq<char>>) {
    let allowed = flag_any(primary, secondary, dogs_allowed_keys());
    let on_lead = flag_any(primary, secondary, dogs_on_lead_keys());
    if allowed == Some(false) {
        (DogPolicy::NotAllowed, Some("Dogs are not permitted."@))
    } else if allowed == Some(true) {
        if on_lead == Some(true) {
            (DogPolicy::Partial, Some("Dogs must be on a lead."@))
        } else {
            (DogPolicy::Allowed, None)
        }
    } else {
        match text_any(primary, secondary, dog_text_keys()) {
            Some(t) => (text_dog_policy(lowercase(t)), Some(t)),
            None => (
                DogPolicy::Unknown,
                Some("Check the DOC track page for dog access details."@),
            ),
        }
    }
}

/// A lowercase length says that it is in metres: it mentions "m" and does
/// not mention "km".
pub open spec fn metres_hint(lower: Seq<char>) -> bool {
    contains_text(lower, "m"@) && !contains_text(lower, "km"@)
}

/// The length in kilometres for a raw number and the lowercase text found
/// beside it. The number is taken as metres where the text says so, and
/// also where it is above 1000; a number of exactly 1000 is kilometres.
pub open spec fn scaled_distance(raw: Fixed, hint: Option<Seq<char>>) -> Fixed {
    if hint is Some && metres_hint(hint->0) {
        raw.spec_thousandth()
    } else if raw.micros > 1_000_000_000 {
        raw.spec_thousandth()
    } else {
        raw
    }
}

/// The length of a track in kilometres, where the records give a number.
pub open spec fn distance_of(primary: Json, secondary: Json) -> Option<Fixed> {
    match number_any(primary, secondary, distance_keys()) {
        Some(raw) => Some(
            scaled_distance(
                raw,
                match text_any(primary, secondary, distance_keys()) {
                    Some(t) => Some(lowercase(t)),
                    None => None,
                },
            ),
        ),
        None => None,
    }
}

/// A number without a hint of its unit is divided by 1000 exactly when it
/// is above 1000.
pub proof fn lemma_distance_without_hint(raw: Fixed, hint: Option<Seq<char>>)
    requires
        hint is Some ==> !metres_hint(hint->0),
    ensures
        raw.micros > 1_000_000_000 ==> scaled_distance(raw, hint) == raw.spec_thousandth(),
        raw.micros <= 1_000_000_000 ==> scaled_distance(raw, hint) == raw,
        raw.micros > 1_000_000_000 ==> scaled_distance(raw, hint).micros == raw.micros / 1000,
{
}

/// A record whose flag forbids dogs is never allowed them, whatever it
/// says in words.
pub proof fn lemma_flag_forbids(primary: Json, secondary: Json)
    requires
        flag_any(primary, secondary, dogs_allowed_keys()) == Some(false),
    ensures
        dog_policy_of(primary, secondary).0 == DogPolicy::NotAllowed,
        dog_policy_of(primary, secondary).1 == Some("Dogs are not permitted."@),
{
}

/// The difficulty that a lowercase description states, if any.
pub fn difficulty_from_text(lower: &str) -> (r: Option<Difficulty>)
    ensures
        r == text_difficulty(lower@),
{
    if str_contains(lower, "easy") {
        Some(Difficulty::Easy)
    } else if str_contains(lower, "moderate") || str_contains(lower, "intermediate") {
        Some(Difficulty::Moderate)
    } else if str_contains(lower, "hard") || str_contains(lower, "advanced") || str_contains(
        lower,
        "expert",
    ) {
        Some(Difficulty::Hard)
    } else {
        None
    }
}

/// The difficulty that the records state in words.
pub fn doc_difficulty(primary: &Json, secondary: &Json) -> (r: Option<Difficulty>)
    ensures
        r == stated_difficulty(*primary, *secondary),
{
    let keys = ["difficulty", "grade", "trackGrade", "walkTrackCategory"];
    assert(names(keys@) =~= difficulty_keys());
    match doc_string_any(primary, secondary, keys.as_slice()) {
        Some(value) => {
            let lower = to_lowercase(value.as_str());
            difficulty_from_text(lower.as_str())
        },
        None => None,
    }
}

/// The dog policy that a lowercase rule states.
pub fn dog_policy_from_text(lower: &str) -> (r: DogPolicy)
    ensures
        r == text_dog_policy(lower@),
{
    if str_contains(lower, "no") && str_contains(lower, "dog") {
        DogPolicy::NotAllowed
    } else if str_contains(lower, "lead") || str_contains(lower, "leash") || str_contains(
        lower,
        "controlled",
    ) {
        DogPolicy::Partial
    } else {
        DogPolicy::Allowed
    }
}

/// The dog policy of a track and the note that goes with it.
pub fn doc_dog_policy(primary: &Json, secondary: &Json) -> (r: (DogPolicy, Option<String>))
    ensures
        (r.0, opt_text(r.1)) == dog_policy_of(*primary, *secondary),
{
    let allowed_keys = ["dogsAllowed", "dogAllowed"];
    let lead_keys = ["dogsAllowedOnLead", "dogsOnLead"];
    let text_keys = ["dogsAllowed", "dogAccess", "dogs", "dogRules"];
    assert(names(allowed_keys@) =~= dogs_allowed_keys());
    assert(names(lead_keys@) =~= dogs_on_lead_keys());
    assert(names(text_keys@) =~= dog_text_keys());
    let allowed = doc_bool_any(primary, secondary, allowed_keys.as_slice());
    let on_lead = doc_bool_any(primary, secondary, lead_keys.as_slice());
    match allowed {
        Some(false) => (DogPolicy::NotAllowed, Some("Dogs are not permitted.".to_string())),
        Some(true) => match on_lead {
            Some(true) => (DogPolicy::Partial, Some("Dogs must be on a lead.".to_string())),
            _ => (DogPolicy::Allowed, None),
        },
        None => match doc_string_any(primary, secondary, text_keys.as_slice()) {
            Some(text) => {
                let lower = to_lowercase(text.as_str());
                (dog_policy_from_text(lower.as_str()), Some(text))
            },
            None => (
                DogPolicy::Unknown,
                Some("Check the DOC track page for dog access details.".to_string()),
            ),
        },
    }
}

/// Whether a lowercase length says that it is in metres.
pub fn is_metres_hint(lower: &str) -> (r: bool)
    ensures
        r == metres_hint(lower@),
{
    str_contains(lower, "m") && !str_contains(lower, "km")
}

/// The length in kilometres for a raw number and the lowercase text found
/// beside it.
pub fn scale_distance(raw: Fixed, hint: Option<&str>) -> (r: Fixed)
    ensures
        r == scaled_distance(
            raw,
            match hint {
                Some(h) => Some(h@),
                None => None,
            },
        ),
{
    let metres = match hint {
        Some(lower) => is_metres_hint(lower),
        None => false,
    };
    if metres || raw.micros > 1_000_000_000 {
        raw.thousandth()
    } else {
        raw
    }
}

/// The length of a track in kilometres, where the records give a number.
pub fn doc_distance_km(primary: &Json, secondary: &Json) -> (r: Option<Fixed>)
    ensures
        r == distance_of(*primary, *secondary),
{
    let keys = ["distance", "distanceKm", "length", "trackLength"];
    assert(names(keys@) =~= distance_keys());
    match doc_number_any(primary, secondary, keys.as_slice()) {
        Some(raw) => match doc_string_any(primary, secondary, keys.as_slice()) {
            Some(text) => {
                let lower = to_lowercase(text.as_str());
                Some(scale_distance(raw, Some(lower.as_str())))
            },
            None => Some(scale_distance(raw, None)),
        },
        None => None,
    }
}

/// The position that a record states under its own names for latitude
/// and longitude.
pub open spec fn direct_position(v: Json) -> Option<Point> {
    let lat = number_in(v, latitude_keys());
    let lon = number_in(v, longitude_keys());
    if lat is Some && lon is Some {
        Some(Point { lat: lat->0, lon: lon->0 })
    } else {
        None
    }
}

/// The position that a pair of numbers states, longitude first.
pub open spec fn pair_position(pair: Seq<Json>) -> Option<Point> {
    if pair.len() >= 2 && pair[0].number() is Some && pair[1].number() is Some {
        Some(Point { lat: pair[1].number()->0, lon: pair[0].number()->0 })
    } else {
        None
    }
}

/// The position that a record states as `coordinates`.
pub open spec fn coordinates_position(v: Json) -> Option<Point> {
    match v.field("coordinates"@) {
        Some(Json::Array(pair)) => pair_position(pair@),
        _ => None,
    }
}

/// The position of a record: the one it states itself, under its own
/// names or as coordinates, else the first that one of its members
/// `location`, `centroid` and `position` has, looked up in the same way.
pub open spec fn position_of(v: Json) -> Option<Point>
    decreases v,
{
    if direct_position(v) is Some {
        direct_position(v)
    } else if coordinates_position(v) is Some {
        coordinates_position(v)
    } else {
        let a = match v.field("location"@) {
            Some(c) => position_of(c),
            None => None,
        };
        let b = match v.field("centroid"@) {
            Some(c) => position_of(c),
            None => None,
        };
        let c = match v.field("position"@) {
            Some(c) => position_of(c),
            None => None,
        };
        if a is Some {
            a
        } else if b is Some {
            b
        } else {
            c
        }
    }
}

/// The position of a track: that of `primary`, else that of `secondary`.
pub open spec fn position_any(primary: Json, secondary: Json) -> Option<Point> {
    if position_of(primary) is Some {
        position_of(primary)
    } else {
        position_of(secondary)
    }
}

/// The position that a pair of numbers states, longitude first.
pub fn position_from_pair(pair: &Vec<Json>) -> (r: Option<Point>)
    ensures
        r == pair_position(pair@),
{
    if pair.len() >= 2 {
        match (pair[0].as_number(), pair[1].as_number()) {
            (Some(lon), Some(lat)) => Some(Point { lat, lon }),
            _ => None,
        }
    } else {
        None
    }
}

/// The position of the member `key` of `value`, found as
/// [`extract_lat_lon`] finds it.
fn child_lat_lon(value: &Json, key: &str) -> (r: Option<Point>)
    ensures
        r == match value.field(key@) {
            Some(c) => position_of(c),
            None => None,
        },
    decreases *value, 0nat,
{
    match value.get(key) {
        Some(child) => {
            extract_lat_lon(child)
        },
        None => None,
    }
}

/// The position of a record; see [`position_of`].
pub fn extract_lat_lon(value: &Json) -> (r: Option<Point>)
    ensures
        r == position_of(*value),
    decreases *value, 1nat,
{
    let lat_keys = ["latitude", "lat", "y"];
    let lon_keys = ["longitude", "lon", "lng", "x"];
    assert(names(lat_keys@) =~= latitude_keys());
    assert(names(lon_keys@) =~= longitude_keys());
    if let (Some(lat), Some(lon)) = (
        doc_number(value, lat_keys.as_slice()),
        doc_number(value, lon_keys.as_slice()),
    ) {
        return Some(Point { lat, lon });
    }
    if let Some(field) = value.get("coordinates") {
        if let Some(pair) = field.as_array() {
            let found = position_from_pair(pair);
            if found.is_some() {
                return found;
            }
        }
    }
    let a = child_lat_lon(value, "location");
    if a.is_some() {
        return a;
    }
    let b = child_lat_lon(value, "centroid");
    if b.is_some() {
        return b;
    }
    child_lat_lon(value, "position")
}

/// The position of a track: that of `primary`, else that of `secondary`.
pub fn doc_lat_lon(primary: &Json, secondary: &Json) -> (r: Option<Point>)
    ensures
        r == position_any(*primary, *secondary),
{
    let first = extract_lat_lon(primary);
    if first.is_some() {
        first
    } else {
        extract_lat_lon(secondary)
    }
}

/// The points that one segment of a line states, in order. Each point is
/// written as a pair of numbers, longitude first; anything else is passed
/// over.
pub open spec fn segment_points(points: Seq<Json>) -> Seq<Point>
    decreases points.len(),
{
    if points.len() == 0 {
        Seq::empty()
    } else {
        let rest = segment_points(points.drop_last());
        match points.last() {
            Json::Array(pair) => match pair_position(pair@) {
                Some(p) => rest.push(p),
                None => rest,
            },
            _ => rest,
        }
    }
}

/// The points of all segments, in order. What is not a segment is passed
/// over.
pub open spec fn all_points(segments: Seq<Json>) -> Seq<Point>
    decreases segments.len(),
{
    if segments.len() == 0 {
        Seq::empty()
    } else {
        all_points(segments.drop_last()) + match segments.last() {
            Json::Array(points) => segment_points(points@),
            _ => Seq::empty(),
        }
    }
}

/// The points of the `line` of a record, each as latitude and longitude.
pub open spec fn line_points(v: Json) -> Seq<Point> {
    match v.field("line"@) {
        Some(Json::Array(segments)) => all_points(segments@),
        _ => Seq::empty(),
    }
}

/// Appends the points of one segment to `out`.
fn push_segment(out: &mut Vec<Point>, points: &Vec<Json>)
    ensures
        final(out)@ == old(out)@ + segment_points(points@),
{
    let mut i: usize = 0;
    while i < points.len()
        invariant
            i <= points.len(),
            out@ == old(out)@ + segment_points(points@.take(i as int)),
        decreases points.len() - i,
    {
        proof {
            assert(points@.take(i + 1).drop_last() =~= points@.take(i as int));
        }
        if let Some(pair) = points[i].as_array() {
            if let Some(p) = position_from_pair(pair) {
                out.push(p);
            }
        }
        i = i + 1;
    }
    assert(points@.take(points@.len() as int) =~= points@);
}

/// The points of the `line` of a record, each as latitude and longitude;
/// `None` where the record has no line or its line has no point.
pub fn extract_line_coords(value: &Json) -> (r: Option<Vec<Point>>)
    ensures
        match r {
            Some(points) => points@ == line_points(*value) && points@.len() > 0,
            None => line_points(*value).len() == 0,
        },
{
    let segments = match value.get("line") {
        Some(field) => match field.as_array() {
            Some(segments) => segments,
            None => {
                return None;
            },
        },
        None => {
            return None;
        },
    };
    let mut out: Vec<Point> = Vec::new();
    let mut i: usize = 0;
    while i < segments.len()
        invariant
            i <= segments.len(),
            out@ == all_points(segments@.take(i as int)),
        decreases segments.len() - i,
    {
        proof {
            assert(segments@.take(i + 1).drop_last() =~= segments@.take(i as int));
        }
        if let Some(points) = segments[i].as_array() {
            push_segment(&mut out, points);
        } else {
        }
        i = i + 1;
    }
    assert(segments@.take(segments@.len() as int) =~= segments@);
    if out.len() == 0 {
        None
    } else {
        Some(out)
    }
}

/// The bounding box of the `line` of a record; `None` where the record has
/// no line or its line has no point.
pub fn extract_line_bbox(value: &Json) -> (r: Option<Bbox>)
    ensures
        r is Some <==> line_points(*value).len() > 0,
        r matches Some(b) ==> is_bounding_box(b, line_points(*value)),
{
    match extract_line_coords(value) {
        Some(points) => bounding_box(&points),
        None => None,
    }
}

/// The provider's own identifier of a record.
pub open spec fn asset_id(v: Json) -> Option<Seq<char>> {
    match v.field("assetId"@) {
        Some(Json::Text(s)) => Some(s@),
        _ => None,
    }
}

/// The identifier of a track without its prefix: the provider's own from
/// the detail record, else from the summary, else the lowercase name with a
/// hyphen for every space.
pub open spec fn track_id(summary: Json, detail: Json, name: Seq<char>) -> Seq<char> {
    if asset_id(detail) is Some {
        asset_id(detail)->0
    } else if asset_id(summary) is Some {
        asset_id(summary)->0
    } else {
        replaced(lowercase(name), ' ', "-"@)
    }
}

/// `value`, or `fallback` where there is none.
pub open spec fn text_or(value: Option<Seq<char>>, fallback: Seq<char>) -> Seq<char> {
    match value {
        Some(v) => v,
        None => fallback,
    }
}

/// The length of a track, zero where it is unknown.
pub open spec fn distance_or_unknown(summary: Json, detail: Json) -> Fixed {
    match distance_of(detail, summary) {
        Some(d) => d,
        None => Fixed { micros: 0 },
    }
}

/// The point that stands for a track, latitude and longitude zero where
/// the records state none.
pub open spec fn position_or_origin(summary: Json, detail: Json) -> Point {
    match position_any(detail, summary) {
        Some(p) => p,
        None => Point { lat: Fixed { micros: 0 }, lon: Fixed { micros: 0 } },
    }
}

/// The trail that a summary and a detail record describe, before its line
/// is looked at: `None` where neither gives a name, else every field from
/// the first usable value, the detail record before the summary, with a
/// stated default where there is none.
pub open spec fn doc_trail(summary: Json, detail: Json) -> Option<TrailView> {
    match text_any(detail, summary, name_keys()) {
        None => None,
        Some(name) => {
            let distance = distance_or_unknown(summary, detail);
            let at = position_or_origin(summary, detail);
            Some(
                TrailView {
                    id: "doc-"@ + track_id(summary, detail, name),
                    name: name,
                    provider: Provider::DOC,
                    location: text_or(text_any(detail, summary, location_keys()), "New Zealand"@),
                    distance_km: distance,
                    elevation_gain_m: None,
                    difficulty: match stated_difficulty(detail, summary) {
                        Some(d) => d,
                        None => Difficulty::spec_for_distance(distance),
                    },
                    dog_policy: dog_policy_of(detail, summary).0,
                    dog_notes: dog_policy_of(detail, summary).1,
                    surface: text_or(text_any(detail, summary, surface_keys()), "Unknown"@),
                    map_url: text_or(
                        text_any(detail, summary, url_keys()),
                        "https://www.doc.govt.nz"@,
                    ),
                    lat: at.lat,
                    lon: at.lon,
                    line: Seq::empty(),
                    line_bbox: Bbox::spec_point(at.lat, at.lon),
                },
            )
        },
    }
}

/// Identifiers carry the mark of their provider, so a trail of the detail
/// provider never has the identifier of a trail of the tile provider.
pub proof fn lemma_ids_tell_providers_apart(e: OverpassElement, summary: Json, detail: Json)
    requires
        osm_trail(e) is Some,
        doc_trail(summary, detail) is Some,
    ensures
        osm_trail(e)->0.id != doc_trail(summary, detail)->0.id,
{
    reveal_strlit("osm-");
    reveal_strlit("doc-");
    let a = osm_trail(e)->0.id;
    let b = doc_trail(summary, detail)->0.id;
    assert(b[0] == 'd');
}

/// The line of a track: that of the summary, else that of the detail
/// record, else none.
pub open spec fn track_line(summary: Json, detail: Json) -> Seq<Point> {
    if line_points(summary).len() > 0 {
        line_points(summary)
    } else {
        line_points(detail)
    }
}

/// The provider's own identifier of a record.
pub fn extract_doc_id(item: &Json) -> (r: Option<String>)
    ensures
        opt_text(r) == asset_id(*item),
{
    match item.get("assetId") {
        Some(field) => match field.as_str() {
            Some(s) => Some(s.to_string()),
            None => None,
        },
        None => None,
    }
}

/// The identifier made from a lowercase name: a hyphen for every space.
pub fn slug(lower: &str) -> (r: String)
    ensures
        r@ == replaced(lower@, ' ', "-"@),
{
    replace_char(lower, ' ', "-")
}

/// `value`, or `fallback` where there is none.
fn string_or(value: Option<String>, fallback: &str) -> (r: String)
    ensures
        r@ == text_or(opt_text(value), fallback@),
{
    match value {
        Some(v) => v,
        None => fallback.to_string(),
    }
}

/// The trail that a summary and a detail record describe, its line left
/// empty and its box reduced to its point; see [`doc_trail`]. A record
/// without a name gives no trail.
pub fn map_doc_track_no_bbox(summary: &Json, detail: &Json) -> (r: Option<Trail>)
    ensures
        match r {
            Some(t) => doc_trail(*summary, *detail) == Some(t@) && t@.wf(),
            None => doc_trail(*summary, *detail) is None,
        },
{
    let n_keys = ["name", "trackName", "title"];
    let l_keys = [
        "locationString",
        "locationArray",
        "location",
        "region",
        "district",
        "place",
        "area",
    ];
    let s_keys = ["surface", "trackSurface", "terrain"];
    let u_keys = ["staticLink", "url", "webUrl", "docUrl", "link"];
    assert(names(n_keys@) =~= name_keys());
    assert(names(l_keys@) =~= location_keys());
    assert(names(s_keys@) =~= surface_keys());
    assert(names(u_keys@) =~= url_keys());
    let name = match doc_string_any(detail, summary, n_keys.as_slice()) {
        Some(name) => name,
        None => {
            return None;
        },
    };
    let (dog_policy, dog_notes) = doc_dog_policy(detail, summary);
    let location = string_or(doc_string_any(detail, summary, l_keys.as_slice()), "New Zealand");
    let surface = string_or(doc_string_any(detail, summary, s_keys.as_slice()), "Unknown");
    let distance_km = match doc_distance_km(detail, summary) {
        Some(d) => d,
        None => Fixed::zero(),
    };
    let difficulty = match doc_difficulty(detail, summary) {
        Some(d) => d,
        None => Difficulty::for_distance(distance_km),
    };
    let map_url = string_or(
        doc_string_any(detail, summary, u_keys.as_slice()),
        "https://www.doc.govt.nz",
    );
    let own = match extract_doc_id(detail) {
        Some(id) => id,
        None => match extract_doc_id(summary) {
            Some(id) => id,
            None => {
                let lower = to_lowercase(name.as_str());
                slug(lower.as_str())
            },
        },
    };
    let mut id = "doc-".to_string();
    id.append(own.as_str());
    let at = match doc_lat_lon(detail, summary) {
        Some(p) => p,
        None => Point { lat: Fixed::zero(), lon: Fixed::zero() },
    };
    let trail = Trail {
        id,
        name,
        provider: Provider::DOC,
        location,
        distance_km,
        elevation_gain_m: None,
        difficulty,
        dog_policy,
        dog_notes,
        surface,
        map_url,
        lat: at.lat,
        lon: at.lon,
        line: Vec::new(),
        line_bbox: Bbox::point(at.lat, at.lon),
    };
    Some(trail)
}

/// `t` is the trail that a summary and a detail record describe: the trail
/// of [`doc_trail`] with the line of [`track_line`] and, where that line has
/// a point, its bounding box.
pub open spec fn describes(t: TrailView, summary: Json, detail: Json) -> bool {
    &&& doc_trail(summary, detail) is Some
    &&& t == (TrailView {
        line: track_line(summary, detail),
        line_bbox: t.line_bbox,
        ..doc_trail(summary, detail)->0
    })
    &&& t.wf()
}

/// A summary and a detail record describe at most one trail.
pub proof fn lemma_describes_unique(a: TrailView, b: TrailView, summary: Json, detail: Json)
    requires
        describes(a, summary, detail),
        describes(b, summary, detail),
    ensures
        a == b,
{
}

/// The trail that a summary and a detail record describe; see
/// [`describes`]. A record without a name gives no trail.
pub fn map_doc_track(summary: &Json, detail: &Json) -> (r: Option<Trail>)
    ensures
        r is Some <==> doc_trail(*summary, *detail) is Some,
        r matches Some(t) ==> describes(t@, *summary, *detail),
{
    let line = match extract_line_coords(summary) {
        Some(points) => Some(points),
        None => extract_line_coords(detail),
    };
    match map_doc_track_no_bbox(summary, detail) {
        Some(mut trail) => {
            match line {
                Some(points) => {
                    match bounding_box(&points) {
                        Some(b) => {
                            trail.line_bbox = b;
                        },
                        None => {},
                    }
                    trail.line = points;
                },
                None => {},
            }
            assert(trail@.line =~= track_line(*summary, *detail));
            Some(trail)
        },
        None => None,
    }
}

/// The track records of a listing: the listing itself where it is an
/// array, else its member `tracks` where that is one, else none.
pub open spec fn doc_items(payload: Json) -> Seq<Json> {
    match payload {
        Json::Array(items) => items@,
        Json::Object(_) => match payload.field("tracks"@) {
            Some(Json::Array(items)) => items@,
            _ => Seq::empty(),
        },
        _ => Seq::empty(),
    }
}

/// The track records of a listing; see [`doc_items`].
pub fn extract_doc_items(payload: &Json) -> (r: &[Json])
    ensures
        r@ == doc_items(*payload),
{
    match payload {
        Json::Array(items) => items.as_slice(),
        Json::Object(_) => match payload.get("tracks") {
            Some(field) => match field.as_array() {
                Some(items) => items.as_slice(),
                None => no_items(),
            },
            None => no_items(),
        },
        _ => no_items(),
    }
}

/// No records.
fn no_items<'a>() -> (r: &'a [Json])
    ensures
        r@.len() == 0,
{
    let none: &'a [Json] = &[];
    none
}

/// The positions in a listing of the records that carry the provider's
/// identifier, in order. Only those can be asked for in detail.
pub open spec fn candidates(items: Seq<Json>) -> Seq<int>
    decreases items.len(),
{
    if items.len() == 0 {
        Seq::empty()
    } else if asset_id(items.last()) is Some {
        candidates(items.drop_last()).push(items.len() - 1)
    } else {
        candidates(items.drop_last())
    }
}

/// The positions in a listing of the records that carry the provider's
/// identifier, each with that identifier.
pub fn doc_candidates(items: &[Json]) -> (r: Vec<(usize, String)>)
    ensures
        r@.len() == candidates(items@).len(),
        forall|k: int|
            0 <= k < r@.len() ==> {
                &&& (#[trigger] r@[k]).0 == candidates(items@)[k]
                &&& 0 <= r@[k].0 < items@.len()
                &&& Some(r@[k].1@) == asset_id(items@[r@[k].0 as int])
            },
{
    let mut out: Vec<(usize, String)> = Vec::new();
    let mut i: usize = 0;
    while i < items.len()
        invariant
            i <= items.len(),
            out@.len() == candidates(items@.take(i as int)).len(),
            forall|k: int|
                0 <= k < out@.len() ==> {
                    &&& (#[trigger] out@[k]).0 == candidates(items@.take(i as int))[k]
                    &&& 0 <= out@[k].0 < i
                    &&& Some(out@[k].1@) == asset_id(items@[out@[k].0 as int])
                },
        decreases items.len() - i,
    {
        proof {
            assert(items@.take(i + 1).drop_last() =~= items@.take(i as int));
        }
        if let Some(id) = extract_doc_id(&items[i]) {
            out.push((i, id));
        }
        i = i + 1;
    }
    assert(items@.take(items@.len() as int) =~= items@);
    out
}

} // verus!
