use stravata::doc::{
    difficulty_from_text, doc_candidates, doc_difficulty, doc_distance_km, doc_dog_policy,
    doc_lat_lon, dog_policy_from_text, extract_doc_id, extract_doc_items, extract_lat_lon,
    extract_line_bbox, extract_line_coords, is_metres_hint, map_doc_track, map_doc_track_no_bbox,
    scale_distance, slug,
};
use stravata::lookup::{
    doc_bool, doc_bool_any, doc_number, doc_number_any, doc_string, doc_string_any, flag_from_word,
    keep_nonempty,
};
use stravata::{Bbox, Difficulty, DogPolicy, Fixed, Json, Point, Provider};

fn s(text: &str) -> Json {
    Json::Text(text.to_string())
}

fn n(micros: i64) -> Json {
    Json::Number(Fixed::from_micros(micros))
}

fn whole(units: i64) -> Json {
    Json::Number(Fixed::from_units(units))
}

fn obj(members: Vec<(&str, Json)>) -> Json {
    Json::Object(members.into_iter().map(|(k, v)| (k.to_string(), v)).collect())
}

fn arr(items: Vec<Json>) -> Json {
    Json::Array(items)
}

fn empty() -> Json {
    obj(vec![])
}

fn pair(lon: i64, lat: i64) -> Json {
    arr(vec![n(lon), n(lat)])
}

fn km(micros: i64) -> Option<Fixed> {
    Some(Fixed::from_micros(micros))
}

#[test]
fn json_get_finds_the_first_member() {
    let v = obj(vec![("a", whole(1)), ("b", whole(2)), ("a", whole(3))]);
    assert_eq!(v.get("a").and_then(|x| x.as_number()), Some(Fixed::from_units(1)));
    assert_eq!(v.get("b").and_then(|x| x.as_number()), Some(Fixed::from_units(2)));
    assert!(v.get("c").is_none());
    assert!(v.get("A").is_none());
    assert!(whole(1).get("a").is_none());
    assert!(arr(vec![]).get("a").is_none());
}

#[test]
fn json_accessors_tell_the_kinds_apart() {
    assert_eq!(s("x").as_str(), Some("x"));
    assert_eq!(whole(1).as_str(), None);
    assert_eq!(Json::Bool(true).as_bool(), Some(true));
    assert_eq!(s("true").as_bool(), None);
    assert_eq!(whole(2).as_number(), Some(Fixed::from_units(2)));
    assert_eq!(s("2").as_number(), None);
    assert_eq!(arr(vec![whole(1)]).as_array().map(|a| a.len()), Some(1));
    assert!(Json::Null.as_array().is_none());
    assert!(Json::Null.as_str().is_none());
}

#[test]
fn string_lookup_takes_the_first_usable_alias() {
    let v = obj(vec![("title", s("Third")), ("trackName", s("Second"))]);
    assert_eq!(doc_string(&v, &["name", "trackName", "title"]), Some("Second".to_string()));
    let v = obj(vec![("name", s("   ")), ("title", s("Fallback"))]);
    assert_eq!(doc_string(&v, &["name", "trackName", "title"]), Some("Fallback".to_string()));
    let v = obj(vec![("name", whole(5)), ("title", s("Fallback"))]);
    assert_eq!(doc_string(&v, &["name", "title"]), Some("Fallback".to_string()));
    assert_eq!(doc_string(&v, &["missing"]), None);
    assert_eq!(doc_string(&v, &[]), None);
    assert_eq!(doc_string(&s("name"), &["name"]), None);
}

#[test]
fn string_lookup_trims() {
    let v = obj(vec![("name", s("  Abel Tasman Coast Track \n"))]);
    assert_eq!(doc_string(&v, &["name"]), Some("Abel Tasman Coast Track".to_string()));
    assert_eq!(keep_nonempty(""), None);
    assert_eq!(keep_nonempty("x"), Some("x".to_string()));
}

#[test]
fn string_arrays_are_joined() {
    let v = obj(vec![("region", arr(vec![s(" Canterbury "), whole(3), s(""), s("Otago"), s("  ")]))]);
    assert_eq!(doc_string(&v, &["region"]), Some("Canterbury, Otago".to_string()));
    let v = obj(vec![("region", arr(vec![s("Canterbury")]))]);
    assert_eq!(doc_string(&v, &["region"]), Some("Canterbury".to_string()));
    let v = obj(vec![("region", arr(vec![s(" "), whole(1)])), ("area", s("Nelson"))]);
    assert_eq!(doc_string(&v, &["region", "area"]), Some("Nelson".to_string()));
    let v = obj(vec![("region", arr(vec![]))]);
    assert_eq!(doc_string(&v, &["region"]), None);
}

#[test]
fn number_lookup_reads_numbers_and_text() {
    let v = obj(vec![("distance", s("about 3.5 km")), ("length", whole(7))]);
    assert_eq!(doc_number(&v, &["distance", "length"]), km(3_500_000));
    assert_eq!(doc_number(&v, &["length", "distance"]), km(7_000_000));
    let v = obj(vec![("distance", s("unknown")), ("length", whole(7))]);
    assert_eq!(doc_number(&v, &["distance", "length"]), km(7_000_000));
    let v = obj(vec![("distance", Json::Bool(true))]);
    assert_eq!(doc_number(&v, &["distance"]), None);
    assert_eq!(doc_number(&empty(), &["distance"]), None);
}

#[test]
fn bool_lookup_reads_flags_and_words() {
    let v = obj(vec![("a", Json::Bool(false)), ("b", s("YES")), ("c", s("False")), ("d", s("maybe")), ("e", s("no"))]);
    assert_eq!(doc_bool(&v, &["a"]), Some(false));
    assert_eq!(doc_bool(&v, &["b"]), Some(true));
    assert_eq!(doc_bool(&v, &["c"]), Some(false));
    assert_eq!(doc_bool(&v, &["d"]), None);
    assert_eq!(doc_bool(&v, &["e"]), Some(false));
    assert_eq!(doc_bool(&v, &["d", "b"]), Some(true));
    assert_eq!(doc_bool(&v, &["zz"]), None);
    assert_eq!(flag_from_word("yes"), Some(true));
    assert_eq!(flag_from_word("true"), Some(true));
    assert_eq!(flag_from_word("no"), Some(false));
    assert_eq!(flag_from_word("false"), Some(false));
    assert_eq!(flag_from_word("Yes"), None);
    assert_eq!(flag_from_word(""), None);
}

#[test]
fn lookups_prefer_the_primary_record() {
    let primary = obj(vec![("name", s("Primary")), ("n", whole(1)), ("f", Json::Bool(true))]);
    let secondary = obj(vec![("name", s("Secondary")), ("n", whole(2)), ("f", Json::Bool(false)), ("only", s("Here"))]);
    assert_eq!(doc_string_any(&primary, &secondary, &["name"]), Some("Primary".to_string()));
    assert_eq!(doc_string_any(&primary, &secondary, &["only"]), Some("Here".to_string()));
    assert_eq!(doc_string_any(&primary, &secondary, &["none"]), None);
    assert_eq!(doc_number_any(&primary, &secondary, &["n"]), km(1_000_000));
    assert_eq!(doc_number_any(&empty(), &secondary, &["n"]), km(2_000_000));
    assert_eq!(doc_bool_any(&primary, &secondary, &["f"]), Some(true));
    assert_eq!(doc_bool_any(&empty(), &secondary, &["f"]), Some(false));
    assert_eq!(doc_bool_any(&empty(), &empty(), &["f"]), None);
}

#[test]
fn distance_above_a_thousand_is_metres() {
    let d = |raw: i64| doc_distance_km(&obj(vec![("distance", n(raw))]), &empty());
    assert_eq!(d(1_500_000_000), km(1_500_000));
    assert_eq!(d(1_000_000_001), km(1_000_000));
    assert_eq!(d(12_345_678_000), km(12_345_678));
}

#[test]
fn distance_up_to_a_thousand_is_kilometres() {
    let d = |raw: i64| doc_distance_km(&obj(vec![("distance", n(raw))]), &empty());
    assert_eq!(d(1_000_000_000), km(1_000_000_000));
    assert_eq!(d(999_999_999), km(999_999_999));
    assert_eq!(d(5_000_000), km(5_000_000));
    assert_eq!(d(0), km(0));
}

#[test]
fn distance_with_a_unit_in_words() {
    let d = |text: &str| doc_distance_km(&obj(vec![("distance", s(text))]), &empty());
    assert_eq!(d("500 m"), km(500_000));
    assert_eq!(d("500m"), km(500_000));
    assert_eq!(d("500 M"), km(500_000));
    assert_eq!(d("5 km"), km(5_000_000));
    assert_eq!(d("5 KM"), km(5_000_000));
    assert_eq!(d("1500 km"), km(1_500_000));
    assert_eq!(d("12.5"), km(12_500_000));
    assert_eq!(d("1500"), km(1_500_000));
    assert_eq!(d("long"), None);
}

#[test]
fn distance_hint_comes_from_the_first_text_found() {
    // The number is taken from `distance`, the hint from the first text among the same names.
    let v = obj(vec![("distance", whole(800)), ("length", s("800 m"))]);
    assert_eq!(doc_distance_km(&v, &empty()), km(800_000));
    let v = obj(vec![("distance", whole(800)), ("length", s("0.8 km"))]);
    assert_eq!(doc_distance_km(&v, &empty()), km(800_000_000));
    assert_eq!(doc_distance_km(&empty(), &empty()), None);
}

#[test]
fn metres_hint_and_scaling() {
    assert!(is_metres_hint("500 m"));
    assert!(is_metres_hint("metres"));
    assert!(!is_metres_hint("5 km"));
    assert!(!is_metres_hint("km and m"));
    assert!(!is_metres_hint("5"));
    assert!(!is_metres_hint(""));
    let raw = Fixed::from_units(800);
    assert_eq!(scale_distance(raw, None), raw);
    assert_eq!(scale_distance(raw, Some("800 m")), Fixed::from_micros(800_000));
    assert_eq!(scale_distance(raw, Some("800 km")), raw);
    assert_eq!(scale_distance(Fixed::from_units(1000), None), Fixed::from_units(1000));
    assert_eq!(scale_distance(Fixed::from_micros(1_000_000_001), None), Fixed::from_micros(1_000_000));
    assert_eq!(scale_distance(Fixed::from_units(2000), Some("2000 km")), Fixed::from_units(2));
}

#[test]
fn difficulty_from_words() {
    assert_eq!(difficulty_from_text("easy"), Some(Difficulty::Easy));
    assert_eq!(difficulty_from_text("easiest walking track"), None);
    assert_eq!(difficulty_from_text("easy to moderate"), Some(Difficulty::Easy));
    assert_eq!(difficulty_from_text("moderate"), Some(Difficulty::Moderate));
    assert_eq!(difficulty_from_text("intermediate"), Some(Difficulty::Moderate));
    assert_eq!(difficulty_from_text("hard"), Some(Difficulty::Hard));
    assert_eq!(difficulty_from_text("advanced tramping track"), Some(Difficulty::Hard));
    assert_eq!(difficulty_from_text("expert"), Some(Difficulty::Hard));
    assert_eq!(difficulty_from_text("moderate to hard"), Some(Difficulty::Moderate));
    assert_eq!(difficulty_from_text("great walk"), None);
    assert_eq!(difficulty_from_text(""), None);
    assert_eq!(difficulty_from_text("EASY"), None);
}

#[test]
fn difficulty_is_read_in_any_case() {
    let v = obj(vec![("grade", s("EASY walking track"))]);
    assert_eq!(doc_difficulty(&v, &empty()), Some(Difficulty::Easy));
    let v = obj(vec![("walkTrackCategory", arr(vec![s("Advanced")]))]);
    assert_eq!(doc_difficulty(&empty(), &v), Some(Difficulty::Hard));
    let v = obj(vec![("difficulty", s("Great Walk"))]);
    assert_eq!(doc_difficulty(&v, &empty()), None);
    assert_eq!(doc_difficulty(&empty(), &empty()), None);
}

#[test]
fn explicit_not_allowed_wins_over_words() {
    let v = obj(vec![
        ("dogsAllowed", Json::Bool(false)),
        ("dogAccess", s("Dogs on a lead are welcome")),
        ("dogsAllowedOnLead", Json::Bool(true)),
    ]);
    assert_eq!(doc_dog_policy(&v, &empty()), (DogPolicy::NotAllowed, Some("Dogs are not permitted.".to_string())));
    let words = obj(vec![("dogs", s("Dogs allowed"))]);
    let flag = obj(vec![("dogAllowed", s("No"))]);
    assert_eq!(doc_dog_policy(&words, &flag), (DogPolicy::NotAllowed, Some("Dogs are not permitted.".to_string())));
}

#[test]
fn allowed_flag_with_and_without_lead() {
    let v = obj(vec![("dogsAllowed", Json::Bool(true)), ("dogsOnLead", Json::Bool(true))]);
    assert_eq!(doc_dog_policy(&v, &empty()), (DogPolicy::Partial, Some("Dogs must be on a lead.".to_string())));
    let v = obj(vec![("dogsAllowed", Json::Bool(true)), ("dogsOnLead", Json::Bool(false))]);
    assert_eq!(doc_dog_policy(&v, &empty()), (DogPolicy::Allowed, None));
    let v = obj(vec![("dogsAllowed", s("yes")), ("dogs", s("No dogs"))]);
    assert_eq!(doc_dog_policy(&v, &empty()), (DogPolicy::Allowed, None));
    let v = obj(vec![("dogsAllowedOnLead", Json::Bool(true))]);
    assert_eq!(doc_dog_policy(&v, &empty()).0, DogPolicy::Unknown);
}

#[test]
fn dog_policy_from_words() {
    let policy = |text: &str| doc_dog_policy(&obj(vec![("dogAccess", s(text))]), &empty());
    assert_eq!(policy("No dogs"), (DogPolicy::NotAllowed, Some("No dogs".to_string())));
    assert_eq!(policy("Dogs on a LEAD only"), (DogPolicy::Partial, Some("Dogs on a LEAD only".to_string())));
    assert_eq!(policy("Leash required"), (DogPolicy::Partial, Some("Leash required".to_string())));
    assert_eq!(policy("Dogs under controlled access"), (DogPolicy::Partial, Some("Dogs under controlled access".to_string())));
    assert_eq!(policy("Dogs welcome"), (DogPolicy::Allowed, Some("Dogs welcome".to_string())));
    assert_eq!(dog_policy_from_text("no dogs"), DogPolicy::NotAllowed);
    assert_eq!(dog_policy_from_text("dogs: not on this track"), DogPolicy::NotAllowed);
    assert_eq!(dog_policy_from_text("no access"), DogPolicy::Allowed);
    assert_eq!(dog_policy_from_text("on a lead"), DogPolicy::Partial);
    assert_eq!(dog_policy_from_text(""), DogPolicy::Allowed);
}

#[test]
fn dog_policy_without_any_signal_is_unknown() {
    assert_eq!(
        doc_dog_policy(&empty(), &empty()),
        (DogPolicy::Unknown, Some("Check the DOC track page for dog access details.".to_string()))
    );
    let v = obj(vec![("dogsAllowed", s("  "))]);
    assert_eq!(doc_dog_policy(&v, &empty()).0, DogPolicy::Unknown);
}

#[test]
fn a_word_that_is_no_flag_counts_as_words() {
    let v = obj(vec![("dogsAllowed", s("Dogs on leash"))]);
    assert_eq!(doc_dog_policy(&v, &empty()), (DogPolicy::Partial, Some("Dogs on leash".to_string())));
}

#[test]
fn position_from_own_names() {
    let v = obj(vec![("lat", n(-41_300_000)), ("lng", n(174_700_000))]);
    assert_eq!(extract_lat_lon(&v), Some(Point { lat: Fixed::from_micros(-41_300_000), lon: Fixed::from_micros(174_700_000) }));
    let v = obj(vec![("y", s("41.5")), ("x", s("174.25"))]);
    assert_eq!(extract_lat_lon(&v), Some(Point { lat: Fixed::from_micros(41_500_000), lon: Fixed::from_micros(174_250_000) }));
    let v = obj(vec![("lat", n(-41_300_000))]);
    assert_eq!(extract_lat_lon(&v), None);
}

#[test]
fn position_from_coordinates_is_longitude_first() {
    let v = obj(vec![("coordinates", arr(vec![n(174_700_000), n(-41_300_000), n(5)]))]);
    assert_eq!(extract_lat_lon(&v), Some(Point { lat: Fixed::from_micros(-41_300_000), lon: Fixed::from_micros(174_700_000) }));
    let v = obj(vec![("coordinates", arr(vec![n(174_700_000)]))]);
    assert_eq!(extract_lat_lon(&v), None);
    let v = obj(vec![("coordinates", arr(vec![s("174.7"), s("-41.3")]))]);
    assert_eq!(extract_lat_lon(&v), None);
}

#[test]
fn position_from_nested_members() {
    let inner = obj(vec![("latitude", n(1)), ("longitude", n(2))]);
    let v = obj(vec![("position", obj(vec![("lat", n(9)), ("lon", n(9))])), ("centroid", obj(vec![("location", inner)]))]);
    assert_eq!(extract_lat_lon(&v), Some(Point { lat: Fixed::from_micros(1), lon: Fixed::from_micros(2) }));
    let v = obj(vec![("location", s("Wellington")), ("position", obj(vec![("coordinates", pair(4, 3))]))]);
    assert_eq!(extract_lat_lon(&v), Some(Point { lat: Fixed::from_micros(3), lon: Fixed::from_micros(4) }));
    let v = obj(vec![("other", obj(vec![("lat", n(1)), ("lon", n(2))]))]);
    assert_eq!(extract_lat_lon(&v), None);
    let primary = obj(vec![("lat", n(1))]);
    let secondary = obj(vec![("lat", n(5)), ("lon", n(6))]);
    assert_eq!(doc_lat_lon(&primary, &secondary), Some(Point { lat: Fixed::from_micros(5), lon: Fixed::from_micros(6) }));
    assert_eq!(doc_lat_lon(&empty(), &empty()), None);
}

#[test]
fn line_points_are_reordered_to_latitude_first() {
    let v = obj(vec![(
        "line",
        arr(vec![
            arr(vec![pair(10, 1), pair(12, 3), s("junk"), arr(vec![n(1)])]),
            s("not a segment"),
            arr(vec![pair(8, 5)]),
        ]),
    )]);
    let points = extract_line_coords(&v).unwrap();
    let p = |lat: i64, lon: i64| Point { lat: Fixed::from_micros(lat), lon: Fixed::from_micros(lon) };
    assert_eq!(points, vec![p(1, 10), p(3, 12), p(5, 8)]);
    assert_eq!(
        extract_line_bbox(&v),
        Some(Bbox {
            min_lat: Fixed::from_micros(1),
            min_lon: Fixed::from_micros(8),
            max_lat: Fixed::from_micros(5),
            max_lon: Fixed::from_micros(12),
        })
    );
}

#[test]
fn a_line_without_points_is_no_line() {
    for v in [
        empty(),
        obj(vec![("line", s("x"))]),
        obj(vec![("line", arr(vec![]))]),
        obj(vec![("line", arr(vec![arr(vec![]), arr(vec![s("a")])]))]),
    ] {
        assert_eq!(extract_line_coords(&v), None);
        assert_eq!(extract_line_bbox(&v), None);
    }
}

#[test]
fn record_without_name_gives_no_trail() {
    let detail = obj(vec![("assetId", s("abc")), ("distance", whole(5))]);
    assert!(map_doc_track_no_bbox(&empty(), &detail).is_none());
    assert!(map_doc_track(&empty(), &detail).is_none());
    let blank = obj(vec![("name", s("  "))]);
    assert!(map_doc_track_no_bbox(&blank, &blank).is_none());
    assert!(map_doc_track_no_bbox(&Json::Null, &Json::Null).is_none());
}

#[test]
fn minimal_record_gets_the_defaults() {
    let summary = obj(vec![("name", s("Hooker Valley Track"))]);
    let t = map_doc_track_no_bbox(&summary, &empty()).unwrap();
    assert_eq!(t.id, "doc-hooker-valley-track");
    assert_eq!(t.name, "Hooker Valley Track");
    assert_eq!(t.provider, Provider::DOC);
    assert_eq!(t.location, "New Zealand");
    assert_eq!(t.distance_km, Fixed::zero());
    assert_eq!(t.elevation_gain_m, None);
    assert_eq!(t.difficulty, Difficulty::Easy);
    assert_eq!(t.dog_policy, DogPolicy::Unknown);
    assert_eq!(t.dog_notes.as_deref(), Some("Check the DOC track page for dog access details."));
    assert_eq!(t.surface, "Unknown");
    assert_eq!(t.map_url, "https://www.doc.govt.nz");
    assert_eq!(t.lat, Fixed::zero());
    assert_eq!(t.lon, Fixed::zero());
    assert!(t.line.is_empty());
    assert_eq!(t.line_bbox, Bbox::point(Fixed::zero(), Fixed::zero()));
}

#[test]
fn full_record_prefers_the_detail() {
    let summary = obj(vec![
        ("assetId", s("sum-1")),
        ("name", s("Summary Name")),
        ("region", arr(vec![s("Canterbury"), s("Otago")])),
        ("x", n(170_100_000)),
        ("y", n(-43_700_000)),
        ("line", arr(vec![arr(vec![pair(170_000_000, -43_800_000), pair(170_200_000, -43_600_000)])])),
    ]);
    let detail = obj(vec![
        ("assetId", s("det-1")),
        ("name", s(" Detail Name ")),
        ("distance", s("7.5 km")),
        ("walkTrackCategory", s("Intermediate")),
        ("dogsAllowed", s("Dogs on a leash only")),
        ("trackSurface", s("Gravel")),
        ("staticLink", s("https://www.doc.govt.nz/track")),
        ("line", arr(vec![arr(vec![pair(1, 1)])])),
    ]);
    let t = map_doc_track(&summary, &detail).unwrap();
    assert_eq!(t.id, "doc-det-1");
    assert_eq!(t.name, "Detail Name");
    assert_eq!(t.location, "Canterbury, Otago");
    assert_eq!(t.distance_km, Fixed::from_micros(7_500_000));
    assert_eq!(t.difficulty, Difficulty::Moderate);
    assert_eq!(t.dog_policy, DogPolicy::Partial);
    assert_eq!(t.dog_notes.as_deref(), Some("Dogs on a leash only"));
    assert_eq!(t.surface, "Gravel");
    assert_eq!(t.map_url, "https://www.doc.govt.nz/track");
    assert_eq!(t.lat, Fixed::from_micros(-43_700_000));
    assert_eq!(t.lon, Fixed::from_micros(170_100_000));
    let p = |lat: i64, lon: i64| Point { lat: Fixed::from_micros(lat), lon: Fixed::from_micros(lon) };
    assert_eq!(t.line, vec![p(-43_800_000, 170_000_000), p(-43_600_000, 170_200_000)]);
    assert_eq!(
        t.line_bbox,
        Bbox {
            min_lat: Fixed::from_micros(-43_800_000),
            min_lon: Fixed::from_micros(170_000_000),
            max_lat: Fixed::from_micros(-43_600_000),
            max_lon: Fixed::from_micros(170_200_000),
        }
    );
    let bare = map_doc_track_no_bbox(&summary, &detail).unwrap();
    assert!(bare.line.is_empty());
    assert_eq!(bare.line_bbox, Bbox::point(t.lat, t.lon));
}

#[test]
fn line_of_the_detail_is_used_when_the_summary_has_none() {
    let summary = obj(vec![("name", s("Track")), ("lat", n(5)), ("lon", n(6))]);
    let detail = obj(vec![("line", arr(vec![arr(vec![pair(2, 1)])]))]);
    let t = map_doc_track(&summary, &detail).unwrap();
    assert_eq!(t.line, vec![Point { lat: Fixed::from_micros(1), lon: Fixed::from_micros(2) }]);
    assert_eq!(t.line_bbox, Bbox::point(Fixed::from_micros(1), Fixed::from_micros(2)));
    let t = map_doc_track(&summary, &empty()).unwrap();
    assert!(t.line.is_empty());
    assert_eq!(t.line_bbox, Bbox::point(Fixed::from_micros(5), Fixed::from_micros(6)));
}

#[test]
fn difficulty_falls_back_to_distance() {
    let d = |km: i64| {
        map_doc_track_no_bbox(&obj(vec![("name", s("T")), ("distance", n(km))]), &empty()).unwrap().difficulty
    };
    assert_eq!(d(6_000_000), Difficulty::Easy);
    assert_eq!(d(6_000_001), Difficulty::Moderate);
    assert_eq!(d(14_000_000), Difficulty::Moderate);
    assert_eq!(d(14_000_001), Difficulty::Hard);
    assert_eq!(Difficulty::for_distance(Fixed::zero()), Difficulty::Easy);
}

#[test]
fn identifier_falls_back_to_the_name() {
    assert_eq!(extract_doc_id(&obj(vec![("assetId", s("a-1"))])), Some("a-1".to_string()));
    assert_eq!(extract_doc_id(&obj(vec![("assetId", whole(7))])), None);
    assert_eq!(extract_doc_id(&empty()), None);
    assert_eq!(slug("hooker valley  track"), "hooker-valley--track");
    let summary = obj(vec![("assetId", s("from-summary")), ("name", s("Big Track"))]);
    assert_eq!(map_doc_track_no_bbox(&summary, &empty()).unwrap().id, "doc-from-summary");
    let unnamed = obj(vec![("title", s("ÀB C"))]);
    assert_eq!(map_doc_track_no_bbox(&unnamed, &empty()).unwrap().id, "doc-àb-c");
}

#[test]
fn listing_items_and_candidates() {
    let a = obj(vec![("assetId", s("a")), ("name", s("A"))]);
    let b = obj(vec![("name", s("B"))]);
    let c = obj(vec![("assetId", s("c"))]);
    let bare = arr(vec![a, b, c]);
    assert_eq!(extract_doc_items(&bare).len(), 3);
    assert_eq!(doc_candidates(extract_doc_items(&bare)), vec![(0, "a".to_string()), (2, "c".to_string())]);
    let wrapped = obj(vec![("count", whole(1)), ("tracks", arr(vec![obj(vec![("assetId", s("z"))])]))]);
    assert_eq!(doc_candidates(extract_doc_items(&wrapped)), vec![(0, "z".to_string())]);
    assert!(extract_doc_items(&obj(vec![("tracks", s("none"))])).is_empty());
    assert!(extract_doc_items(&empty()).is_empty());
    assert!(extract_doc_items(&s("x")).is_empty());
    assert!(extract_doc_items(&Json::Null).is_empty());
}

/// The characters that count as white space, by code point.
fn is_listed_white_space(c: char) -> bool {
    matches!(
        c as u32,
        0x09..=0x0d | 0x20 | 0x85 | 0xa0 | 0x1680 | 0x2000..=0x200a | 0x2028 | 0x2029 | 0x202f | 0x205f | 0x3000
    )
}

#[test]
fn trimming_takes_off_exactly_the_listed_white_space() {
    for code in 0..=0x10ffffu32 {
        let c = match char::from_u32(code) {
            Some(c) => c,
            None => continue,
        };
        let framed = format!("{}x{}", c, c);
        let expected = if is_listed_white_space(c) { "x".to_string() } else { framed.clone() };
        assert_eq!(keep_nonempty_trimmed(&framed), Some(expected), "U+{:04X}", code);
        let alone = c.to_string();
        let expected = if is_listed_white_space(c) { None } else { Some(alone.clone()) };
        assert_eq!(keep_nonempty_trimmed(&alone), expected, "U+{:04X}", code);
    }
}

fn keep_nonempty_trimmed(text: &str) -> Option<String> {
    doc_string(&obj(vec![("k", s(text))]), &["k"])
}

#[test]
fn trimming_keeps_what_lies_between() {
    assert_eq!(keep_nonempty_trimmed(" \t a  b\u{3000}c \r\n"), Some("a  b\u{3000}c".to_string()));
    assert_eq!(keep_nonempty_trimmed("\u{a0}\u{2003}"), None);
    assert_eq!(keep_nonempty_trimmed("\u{200b}x\u{200b}"), Some("\u{200b}x\u{200b}".to_string()));
    assert_eq!(keep_nonempty_trimmed("Hut Track"), Some("Hut Track".to_string()));
}
