use stravata::geometry::{bbox_intersects, bounding_box, filter_doc_by_bbox};
use stravata::{Bbox, Difficulty, DogPolicy, Fixed, Point, Provider, Trail, TrailQuery};

fn deg(micros: i64) -> Fixed {
    Fixed::from_micros(micros)
}

fn bbox(min_lat: i64, min_lon: i64, max_lat: i64, max_lon: i64) -> Bbox {
    Bbox { min_lat: deg(min_lat), min_lon: deg(min_lon), max_lat: deg(max_lat), max_lon: deg(max_lon) }
}

fn point(lat: i64, lon: i64) -> Point {
    Point { lat: deg(lat), lon: deg(lon) }
}

fn trail_at(id: &str, line_bbox: Bbox) -> Trail {
    Trail {
        id: id.to_string(),
        name: id.to_string(),
        provider: Provider::DOC,
        location: "New Zealand".to_string(),
        distance_km: Fixed::zero(),
        elevation_gain_m: None,
        difficulty: Difficulty::Easy,
        dog_policy: DogPolicy::Allowed,
        dog_notes: None,
        surface: "Unknown".to_string(),
        map_url: "https://www.doc.govt.nz".to_string(),
        lat: line_bbox.min_lat,
        lon: line_bbox.min_lon,
        line: Vec::new(),
        line_bbox,
    }
}

#[test]
fn default_region_is_christchurch() {
    let b = Bbox::default();
    assert_eq!(b, bbox(-43_600_000, 172_500_000, -43_450_000, 172_770_000));
}

#[test]
fn from_query_needs_all_four_corners() {
    let full = TrailQuery {
        min_lat: Some(deg(1)),
        min_lon: Some(deg(2)),
        max_lat: Some(deg(3)),
        max_lon: Some(deg(4)),
        ..TrailQuery::default()
    };
    assert_eq!(Bbox::from_query(&full), Some(bbox(1, 2, 3, 4)));
    assert_eq!(Bbox::from_query(&TrailQuery { min_lat: None, ..full }), None);
    assert_eq!(Bbox::from_query(&TrailQuery { min_lon: None, ..full }), None);
    assert_eq!(Bbox::from_query(&TrailQuery { max_lat: None, ..full }), None);
    assert_eq!(Bbox::from_query(&TrailQuery { max_lon: None, ..full }), None);
    assert_eq!(Bbox::from_query(&TrailQuery::default()), None);
}

#[test]
fn intersection_is_symmetric() {
    let a = bbox(0, 0, 10, 10);
    let overlapping = bbox(5, 5, 15, 15);
    let touching = bbox(10, 10, 20, 20);
    let inside = bbox(2, 2, 3, 3);
    let north = bbox(11, 0, 20, 10);
    let east = bbox(0, 11, 10, 20);
    for (b, expected) in
        [(overlapping, true), (touching, true), (inside, true), (north, false), (east, false), (a, true)]
    {
        assert_eq!(bbox_intersects(a, b), expected);
        assert_eq!(bbox_intersects(b, a), expected);
    }
}

#[test]
fn intersection_matches_its_definition() {
    let values = [-2i64, 0, 1, 3];
    let mut boxes = Vec::new();
    for &a in &values {
        for &b in &values {
            for &c in &values {
                for &d in &values {
                    boxes.push(bbox(a, b, c, d));
                }
            }
        }
    }
    for a in &boxes {
        for b in &boxes {
            let expected = a.min_lat.micros <= b.max_lat.micros
                && a.max_lat.micros >= b.min_lat.micros
                && a.min_lon.micros <= b.max_lon.micros
                && a.max_lon.micros >= b.min_lon.micros;
            assert_eq!(bbox_intersects(*a, *b), expected);
            assert_eq!(bbox_intersects(*a, *b), bbox_intersects(*b, *a));
        }
        if a.min_lat.micros <= a.max_lat.micros && a.min_lon.micros <= a.max_lon.micros {
            assert!(bbox_intersects(*a, *a));
        }
    }
}

#[test]
fn a_point_box_intersects_itself() {
    let p = Bbox::point(deg(-41_300_000), deg(174_700_000));
    assert_eq!(p, bbox(-41_300_000, 174_700_000, -41_300_000, 174_700_000));
    assert!(bbox_intersects(p, p));
}

#[test]
fn bounding_box_of_points() {
    assert_eq!(bounding_box(&Vec::new()), None);
    assert_eq!(bounding_box(&vec![point(3, 4)]), Some(bbox(3, 4, 3, 4)));
    let points = vec![point(3, 4), point(-1, 9), point(7, -2), point(0, 0)];
    assert_eq!(bounding_box(&points), Some(bbox(-1, -2, 7, 9)));
}

#[test]
fn extend_grows_a_box_to_a_point() {
    let b = bbox(0, 0, 10, 10);
    assert_eq!(b.extend(point(5, 5)), b);
    assert_eq!(b.extend(point(-1, 5)), bbox(-1, 0, 10, 10));
    assert_eq!(b.extend(point(5, 12)), bbox(0, 0, 10, 12));
    assert_eq!(b.extend(point(11, -3)), bbox(0, -3, 11, 10));
}

#[test]
fn filter_by_bbox_keeps_order() {
    let trails = vec![
        trail_at("in-1", bbox(1, 1, 2, 2)),
        trail_at("out", bbox(20, 20, 30, 30)),
        trail_at("edge", bbox(10, 10, 12, 12)),
        trail_at("in-2", bbox(-5, -5, 0, 0)),
    ];
    let kept = filter_doc_by_bbox(&trails, bbox(0, 0, 10, 10));
    let ids: Vec<&str> = kept.iter().map(|t| t.id.as_str()).collect();
    assert_eq!(ids, vec!["in-1", "edge", "in-2"]);
    assert!(filter_doc_by_bbox(&trails, bbox(100, 100, 101, 101)).is_empty());
}
