use stravata::request::Progress;
use stravata::service::{DOC_TTL_MS, OVERPASS_TTL_MS};
use stravata::{Bbox, Difficulty, DogPolicy, Fixed, Provider, Trail, TrailError, TrailQuery, TrailService};

fn deg(micros: i64) -> Fixed {
    Fixed::from_micros(micros)
}

fn bbox(min_lat: i64, min_lon: i64, max_lat: i64, max_lon: i64) -> Bbox {
    Bbox { min_lat: deg(min_lat), min_lon: deg(min_lon), max_lat: deg(max_lat), max_lon: deg(max_lon) }
}

fn query_for(b: Bbox) -> TrailQuery {
    TrailQuery {
        min_lat: Some(b.min_lat),
        min_lon: Some(b.min_lon),
        max_lat: Some(b.max_lat),
        max_lon: Some(b.max_lon),
        ..TrailQuery::default()
    }
}

fn trail(id: &str, at: Bbox) -> Trail {
    Trail {
        id: id.to_string(),
        name: id.to_string(),
        provider: Provider::OpenStreetMap,
        location: "Unknown".to_string(),
        distance_km: Fixed::zero(),
        elevation_gain_m: None,
        difficulty: Difficulty::Easy,
        dog_policy: DogPolicy::Allowed,
        dog_notes: None,
        surface: "Unknown".to_string(),
        map_url: "https://www.openstreetmap.org/way/1".to_string(),
        lat: at.min_lat,
        lon: at.min_lon,
        line: Vec::new(),
        line_bbox: at,
    }
}

fn ids(trails: &[Trail]) -> Vec<String> {
    trails.iter().map(|t| t.id.clone()).collect()
}

fn done(progress: Progress) -> Result<Vec<String>, String> {
    match progress {
        Progress::Done(Ok(trails)) => Ok(ids(&trails)),
        Progress::Done(Err(e)) => Err(e.message()),
        other => panic!("the request is not answered: {:?}", other),
    }
}

fn service(key: Option<&str>) -> TrailService {
    TrailService::new(vec!["https://a".to_string()], key.map(|k| k.to_string()))
}

/// What the providers hold, and how often each has been asked.
struct Providers {
    tiles: Result<Vec<Trail>, String>,
    catalogue: Result<Vec<Trail>, String>,
    tile_calls: u32,
    catalogue_calls: u32,
}

/// Drives one request to its answer, as a driver without rivals would.
fn run(service: &mut TrailService, providers: &mut Providers, q: &TrailQuery, now: u64) -> Result<Vec<String>, String> {
    let mut progress = service.fetch_trails(q, now);
    loop {
        progress = match progress {
            Progress::FetchTiles(stage) => {
                assert_eq!(stage.bbox(), TrailService::region(q));
                providers.tile_calls += 1;
                let result = providers.tiles.clone().map_err(|e| TrailError::new(&e));
                stage.fetched(service, result, now)
            },
            Progress::FetchCatalogue(stage, key) => {
                assert_eq!(key, "secret");
                providers.catalogue_calls += 1;
                let result = providers.catalogue.clone().map_err(|e| TrailError::new(&e));
                stage.fetched(service, result, now)
            },
            Progress::AwaitTiles(_) | Progress::AwaitCatalogue(_) => panic!("nothing is in flight"),
            Progress::Done(result) => return result.map(|t| ids(&t)).map_err(|e| e.message()),
        };
    }
}

fn providers() -> Providers {
    Providers {
        tiles: Ok(vec![trail("osm-1", bbox(1, 1, 2, 2)), trail("osm-2", bbox(3, 3, 4, 4))]),
        catalogue: Ok(vec![trail("doc-in", bbox(5, 5, 6, 6)), trail("doc-out", bbox(50, 50, 60, 60))]),
        tile_calls: 0,
        catalogue_calls: 0,
    }
}

#[test]
fn without_credential_only_tile_trails_are_returned() {
    let mut s = service(None);
    let mut p = providers();
    let q = query_for(bbox(0, 0, 10, 10));
    assert_eq!(run(&mut s, &mut p, &q, 0), Ok(vec!["osm-1".to_string(), "osm-2".to_string()]));
    assert_eq!(p.tile_calls, 1);
    assert_eq!(p.catalogue_calls, 0);
    assert_eq!(run(&mut s, &mut p, &q, 1), Ok(vec!["osm-1".to_string(), "osm-2".to_string()]));
    assert_eq!((p.tile_calls, p.catalogue_calls), (1, 0));
}

#[test]
fn with_credential_both_providers_contribute_in_order() {
    let mut s = service(Some("secret"));
    let mut p = providers();
    let q = query_for(bbox(0, 0, 10, 10));
    assert_eq!(
        run(&mut s, &mut p, &q, 0),
        Ok(vec!["osm-1".to_string(), "osm-2".to_string(), "doc-in".to_string()])
    );
    assert_eq!((p.tile_calls, p.catalogue_calls), (1, 1));
}

#[test]
fn identical_queries_within_ttl_call_upstream_once() {
    let mut s = service(Some("secret"));
    let mut p = providers();
    let q = query_for(bbox(0, 0, 10, 10));
    let first = run(&mut s, &mut p, &q, 1_000);
    // The providers change their minds; a cached answer must not notice.
    p.tiles = Ok(vec![trail("osm-9", bbox(1, 1, 2, 2))]);
    p.catalogue = Err("down".to_string());
    let second = run(&mut s, &mut p, &q, 1_000 + OVERPASS_TTL_MS - 1);
    assert_eq!(second, first);
    assert_eq!((p.tile_calls, p.catalogue_calls), (1, 1));
    let third = run(&mut s, &mut p, &q, 1_000 + OVERPASS_TTL_MS);
    assert_eq!(third, Ok(vec!["osm-9".to_string(), "doc-in".to_string()]));
    assert_eq!((p.tile_calls, p.catalogue_calls), (2, 1));
}

#[test]
fn catalogue_is_kept_for_twelve_hours_and_cut_to_the_box() {
    let mut s = service(Some("secret"));
    let mut p = providers();
    let _ = run(&mut s, &mut p, &query_for(bbox(0, 0, 10, 10)), 0);
    let far = query_for(bbox(40, 40, 70, 70));
    assert_eq!(
        run(&mut s, &mut p, &far, DOC_TTL_MS - 1),
        Ok(vec!["osm-1".to_string(), "osm-2".to_string(), "doc-out".to_string()])
    );
    assert_eq!((p.tile_calls, p.catalogue_calls), (2, 1));
    // One millisecond on, the tiles for that box are still good; the catalogue is not.
    let _ = run(&mut s, &mut p, &far, DOC_TTL_MS);
    assert_eq!((p.tile_calls, p.catalogue_calls), (2, 2));
}

#[test]
fn tile_failure_fails_the_request() {
    let mut s = service(Some("secret"));
    let mut p = providers();
    p.tiles = Err("overpass rate limited after retries".to_string());
    let q = query_for(bbox(0, 0, 10, 10));
    assert_eq!(run(&mut s, &mut p, &q, 0), Err("overpass rate limited after retries".to_string()));
    assert_eq!((p.tile_calls, p.catalogue_calls), (1, 0));
    // The guard is free again: the next request fetches.
    p.tiles = Ok(vec![trail("osm-1", bbox(1, 1, 2, 2))]);
    assert_eq!(run(&mut s, &mut p, &q, 1), Ok(vec!["osm-1".to_string(), "doc-in".to_string()]));
}

#[test]
fn catalogue_failure_never_fails_the_request() {
    let mut s = service(Some("secret"));
    let mut p = providers();
    p.catalogue = Err("DOC tracks request failed: down".to_string());
    let q = query_for(bbox(0, 0, 10, 10));
    assert_eq!(run(&mut s, &mut p, &q, 0), Ok(vec!["osm-1".to_string(), "osm-2".to_string()]));
    assert_eq!(run(&mut s, &mut p, &q, 1), Ok(vec!["osm-1".to_string(), "osm-2".to_string()]));
    assert_eq!((p.tile_calls, p.catalogue_calls), (1, 2));
}

#[test]
fn a_query_without_box_asks_about_the_default_region() {
    let mut s = service(None);
    match s.fetch_trails(&TrailQuery::default(), 0) {
        Progress::FetchTiles(stage) => {
            assert_eq!(stage.bbox(), Bbox::default());
            let fetch = stage.start(&s);
            assert_eq!(fetch.urls.len(), 1);
            assert!(fetch.urls[0].starts_with("https://a?data="));
            assert!(fetch.urls[0].contains("-43.6%2C172.5%2C-43.45%2C172.77"));
        },
        other => panic!("expected a fetch, got {:?}", other),
    }
}

#[test]
fn rivals_wait_or_are_served_what_is_cached() {
    let mut s = service(Some("secret"));
    let home = bbox(0, 0, 10, 10);
    let away = bbox(20, 20, 30, 30);
    let leader = match s.fetch_trails(&query_for(home), 0) {
        Progress::FetchTiles(stage) => stage,
        other => panic!("expected a fetch, got {:?}", other),
    };
    let rival = match s.fetch_trails(&query_for(away), 1) {
        Progress::AwaitTiles(stage) => stage,
        other => panic!("expected a wait, got {:?}", other),
    };
    assert_eq!(rival.bbox(), away);
    let rival = match rival.woken(&mut s, 2) {
        Progress::AwaitTiles(stage) => stage,
        other => panic!("expected a wait, got {:?}", other),
    };
    let leader = match leader.fetched(&mut s, Ok(vec![trail("osm-home", bbox(1, 1, 2, 2))]), 3) {
        Progress::FetchCatalogue(stage, key) => {
            assert_eq!(key, "secret");
            stage
        },
        other => panic!("expected the catalogue fetch, got {:?}", other),
    };
    // The rival's box is not the cached one: once woken it fetches for itself.
    let rival = match rival.woken(&mut s, 4) {
        Progress::FetchTiles(stage) => stage,
        other => panic!("expected a fetch, got {:?}", other),
    };
    // A newcomer meanwhile is served the cached tiles, and then waits for the catalogue.
    let newcomer = match s.fetch_trails(&query_for(home), 5) {
        Progress::AwaitCatalogue(stage) => stage,
        other => panic!("expected a wait, got {:?}", other),
    };
    let rival = match rival.fetched(&mut s, Ok(vec![trail("osm-away", bbox(21, 21, 22, 22))]), 6) {
        Progress::AwaitCatalogue(stage) => stage,
        other => panic!("expected a wait, got {:?}", other),
    };
    let catalogue = vec![trail("doc-home", bbox(5, 5, 6, 6)), trail("doc-away", bbox(25, 25, 26, 26))];
    assert_eq!(done(leader.fetched(&mut s, Ok(catalogue), 7)), Ok(vec!["osm-home".to_string(), "doc-home".to_string()]));
    assert_eq!(done(newcomer.woken(&mut s, 8)), Ok(vec!["osm-home".to_string(), "doc-home".to_string()]));
    assert_eq!(done(rival.woken(&mut s, 8)), Ok(vec!["osm-away".to_string(), "doc-away".to_string()]));
}

#[test]
fn a_woken_waiter_for_the_cached_box_is_served() {
    let mut s = service(None);
    let home = bbox(0, 0, 10, 10);
    let leader = match s.fetch_trails(&query_for(home), 0) {
        Progress::FetchTiles(stage) => stage,
        other => panic!("expected a fetch, got {:?}", other),
    };
    let waiter = match s.fetch_trails(&query_for(home), 0) {
        Progress::AwaitTiles(stage) => stage,
        other => panic!("expected a wait, got {:?}", other),
    };
    assert_eq!(done(leader.fetched(&mut s, Ok(vec![trail("osm-1", bbox(1, 1, 2, 2))]), 1)), Ok(vec!["osm-1".to_string()]));
    assert_eq!(done(waiter.woken(&mut s, 2)), Ok(vec!["osm-1".to_string()]));
}
