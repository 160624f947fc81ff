use stravata::rank::{
    derive_distance_range, difficulty_penalty, difficulty_rank, dog_policy_allows, passes,
    score_trail, within_distance, DistanceRange,
};
use stravata::{
    filter_trails, Bbox, Difficulty, DogFilter, DogPolicy, Effort, Fixed, Length, Provider, Trail,
    TrailQuery,
};

fn km(whole: i64) -> Fixed {
    Fixed::from_units(whole)
}

fn trail(id: &str, distance_km: Fixed, ascent_m: Option<i64>, difficulty: Difficulty, dog_policy: DogPolicy) -> Trail {
    Trail {
        id: id.to_string(),
        name: format!("Trail {}", id),
        provider: Provider::DOC,
        location: "Wellington".to_string(),
        distance_km,
        elevation_gain_m: ascent_m.map(Fixed::from_units),
        difficulty,
        dog_policy,
        dog_notes: None,
        surface: "Gravel".to_string(),
        map_url: "https://www.doc.govt.nz".to_string(),
        lat: Fixed::from_micros(-41_300_000),
        lon: Fixed::from_micros(174_700_000),
        line: Vec::new(),
        line_bbox: Bbox::point(Fixed::from_micros(-41_300_000), Fixed::from_micros(174_700_000)),
    }
}

fn sample_trails() -> Vec<Trail> {
    vec![
        Trail {
            id: "t1".to_string(),
            name: "River Loop".to_string(),
            provider: Provider::DOC,
            location: "Wellington".to_string(),
            distance_km: km(5),
            elevation_gain_m: Some(Fixed::from_units(120)),
            difficulty: Difficulty::Easy,
            dog_policy: DogPolicy::Allowed,
            dog_notes: None,
            surface: "Gravel".to_string(),
            map_url: "https://www.doc.govt.nz".to_string(),
            lat: Fixed::from_micros(-41_300_000),
            lon: Fixed::from_micros(174_700_000),
            line: Vec::new(),
            line_bbox: Bbox {
                min_lat: Fixed::from_micros(-41_300_000),
                min_lon: Fixed::from_micros(174_700_000),
                max_lat: Fixed::from_micros(-41_300_000),
                max_lon: Fixed::from_micros(174_700_000),
            },
        },
        Trail {
            id: "t2".to_string(),
            name: "Forest Ridge".to_string(),
            provider: Provider::AllTrails,
            location: "Auckland".to_string(),
            distance_km: km(12),
            elevation_gain_m: Some(Fixed::from_units(520)),
            difficulty: Difficulty::Hard,
            dog_policy: DogPolicy::NotAllowed,
            dog_notes: Some("Dog-free section after 2km".to_string()),
            surface: "Dirt".to_string(),
            map_url: "https://www.alltrails.com".to_string(),
            lat: Fixed::from_micros(-36_800_000),
            lon: Fixed::from_micros(174_700_000),
            line: Vec::new(),
            line_bbox: Bbox {
                min_lat: Fixed::from_micros(-36_800_000),
                min_lon: Fixed::from_micros(174_700_000),
                max_lat: Fixed::from_micros(-36_800_000),
                max_lon: Fixed::from_micros(174_700_000),
            },
        },
    ]
}

fn ids(trails: &[Trail]) -> Vec<String> {
    trails.iter().map(|t| t.id.clone()).collect()
}

#[test]
fn filters_dog_allowed_by_default() {
    let trails = sample_trails();
    let query = TrailQuery {
        length: Some(Length::Short),
        ..TrailQuery::default()
    };
    let results = filter_trails(&trails, &query);
    assert_eq!(results.len(), 1);
    assert_eq!(results[0].id, "t1");
}

#[test]
fn allows_any_dog_policy_when_requested() {
    let trails = sample_trails();
    let query = TrailQuery {
        dog: Some(DogFilter::Any),
        min_km: Some(km(0)),
        max_km: Some(km(20)),
        ..TrailQuery::default()
    };
    let results = filter_trails(&trails, &query);
    assert_eq!(results.len(), 2);
}

#[test]
fn short_walk_keeps_only_the_short_dog_friendly_trail() {
    let trails = sample_trails();
    let query = TrailQuery { length: Some(Length::Short), ..TrailQuery::default() };
    let results = filter_trails(&trails, &query);
    assert_eq!(ids(&results), vec!["t1".to_string()]);
    assert_eq!(results[0].name, "River Loop");
    assert_eq!(results[0].distance_km, km(5));
}

#[test]
fn any_dog_policy_returns_both_sorted_by_score() {
    let trails = sample_trails();
    let query = TrailQuery {
        dog: Some(DogFilter::Any),
        min_km: Some(km(0)),
        max_km: Some(km(20)),
        ..TrailQuery::default()
    };
    let range = derive_distance_range(&query);
    assert_eq!(range.target_km, Some(km(10)));
    // |5 - 10| + 2 * 0.5 + 120 / 600 = 6.2, and |12 - 10| + 2 * 0.5 + 520 / 600 = 3.8667
    let s1 = score_trail(&trails[0], &range, None);
    let s2 = score_trail(&trails[1], &range, None);
    assert_eq!(s1, 600 * 5_000_000 + 600_000_000 + 120_000_000);
    assert_eq!(s2, 600 * 2_000_000 + 600_000_000 + 520_000_000);
    assert!(s2 < s1);
    let results = filter_trails(&trails, &query);
    assert_eq!(ids(&results), vec!["t2".to_string(), "t1".to_string()]);
}

#[test]
fn unknown_distance_is_never_excluded_by_bounds() {
    let trails = vec![
        trail("known", km(5), None, Difficulty::Easy, DogPolicy::Allowed),
        trail("unknown", Fixed::zero(), None, Difficulty::Easy, DogPolicy::Allowed),
    ];
    let query = TrailQuery { min_km: Some(km(10)), max_km: Some(km(20)), ..TrailQuery::default() };
    let results = filter_trails(&trails, &query);
    assert_eq!(ids(&results), vec!["unknown".to_string()]);
    let range = derive_distance_range(&query);
    assert!(within_distance(Fixed::zero(), &range));
    assert!(!within_distance(km(5), &range));
    assert!(within_distance(km(10), &range));
    assert!(within_distance(km(20), &range));
    assert!(!within_distance(Fixed::from_micros(20_000_001), &range));
}

#[test]
fn ranking_sorts_ascending_by_score() {
    // Given in descending order of fit; the ranking must turn them round.
    let trails = vec![
        trail("far", km(11), None, Difficulty::Easy, DogPolicy::Allowed),
        trail("near", km(10), None, Difficulty::Easy, DogPolicy::Allowed),
        trail("exact", km(9), None, Difficulty::Easy, DogPolicy::Allowed),
    ];
    let query = TrailQuery::default();
    let results = filter_trails(&trails, &query);
    assert_eq!(ids(&results), vec!["exact".to_string(), "near".to_string(), "far".to_string()]);
}

#[test]
fn equal_scores_keep_their_order() {
    let trails = vec![
        trail("a", km(8), None, Difficulty::Moderate, DogPolicy::Allowed),
        trail("b", km(10), None, Difficulty::Moderate, DogPolicy::Allowed),
        trail("c", km(8), None, Difficulty::Moderate, DogPolicy::Partial),
        trail("d", km(10), None, Difficulty::Moderate, DogPolicy::Allowed),
        trail("e", km(9), None, Difficulty::Moderate, DogPolicy::Allowed),
    ];
    let query = TrailQuery { length: Some(Length::Medium), ..TrailQuery::default() };
    let results = filter_trails(&trails, &query);
    assert_eq!(
        ids(&results),
        vec!["e".to_string(), "a".to_string(), "b".to_string(), "c".to_string(), "d".to_string()]
    );
}

#[test]
fn ranking_of_nothing_is_empty() {
    let results = filter_trails(&[], &TrailQuery::default());
    assert!(results.is_empty());
}

#[test]
fn dog_filter_variants() {
    let allowed = trail("a", km(5), None, Difficulty::Easy, DogPolicy::Allowed);
    let partial = trail("p", km(5), None, Difficulty::Easy, DogPolicy::Partial);
    let closed = trail("n", km(5), None, Difficulty::Easy, DogPolicy::NotAllowed);
    let unknown = trail("u", km(5), None, Difficulty::Easy, DogPolicy::Unknown);
    assert!(dog_policy_allows(&allowed, &DogFilter::AllowedOnly));
    assert!(!dog_policy_allows(&partial, &DogFilter::AllowedOnly));
    assert!(!dog_policy_allows(&closed, &DogFilter::AllowedOnly));
    assert!(!dog_policy_allows(&unknown, &DogFilter::AllowedOnly));
    assert!(dog_policy_allows(&allowed, &DogFilter::AllowedOrPartial));
    assert!(dog_policy_allows(&partial, &DogFilter::AllowedOrPartial));
    assert!(!dog_policy_allows(&closed, &DogFilter::AllowedOrPartial));
    assert!(!dog_policy_allows(&unknown, &DogFilter::AllowedOrPartial));
    assert!(dog_policy_allows(&allowed, &DogFilter::Any));
    assert!(dog_policy_allows(&partial, &DogFilter::Any));
    assert!(dog_policy_allows(&closed, &DogFilter::Any));
    assert!(dog_policy_allows(&unknown, &DogFilter::Any));
}

#[test]
fn difficulty_filter_is_exact() {
    let trails = vec![
        trail("easy", km(9), None, Difficulty::Easy, DogPolicy::Allowed),
        trail("moderate", km(9), None, Difficulty::Moderate, DogPolicy::Allowed),
        trail("hard", km(9), None, Difficulty::Hard, DogPolicy::Allowed),
    ];
    let query = TrailQuery { difficulty: Some(Difficulty::Moderate), ..TrailQuery::default() };
    assert_eq!(ids(&filter_trails(&trails, &query)), vec!["moderate".to_string()]);
    assert!(passes(&trails[1], &query));
    assert!(!passes(&trails[0], &query));
    assert_eq!(filter_trails(&trails, &TrailQuery::default()).len(), 3);
}

#[test]
fn distance_range_from_buckets() {
    let short = derive_distance_range(&TrailQuery { length: Some(Length::Short), ..TrailQuery::default() });
    assert_eq!(short, DistanceRange { min_km: Some(km(2)), max_km: Some(km(6)), target_km: Some(km(4)) });
    let medium = derive_distance_range(&TrailQuery { length: Some(Length::Medium), ..TrailQuery::default() });
    assert_eq!(medium, DistanceRange { min_km: Some(km(6)), max_km: Some(km(12)), target_km: Some(km(9)) });
    let long = derive_distance_range(&TrailQuery { length: Some(Length::Long), ..TrailQuery::default() });
    assert_eq!(long, DistanceRange { min_km: Some(km(12)), max_km: Some(km(24)), target_km: Some(km(18)) });
    let default = derive_distance_range(&TrailQuery::default());
    assert_eq!(default, medium);
}

#[test]
fn distance_range_from_explicit_bounds() {
    let both = derive_distance_range(&TrailQuery {
        min_km: Some(km(3)),
        max_km: Some(km(8)),
        length: Some(Length::Long),
        ..TrailQuery::default()
    });
    assert_eq!(
        both,
        DistanceRange { min_km: Some(km(3)), max_km: Some(km(8)), target_km: Some(Fixed::from_micros(5_500_000)) }
    );
    let only_min = derive_distance_range(&TrailQuery { min_km: Some(km(3)), ..TrailQuery::default() });
    assert_eq!(only_min, DistanceRange { min_km: Some(km(3)), max_km: None, target_km: None });
    let only_max = derive_distance_range(&TrailQuery { max_km: Some(km(8)), ..TrailQuery::default() });
    assert_eq!(only_max, DistanceRange { min_km: None, max_km: Some(km(8)), target_km: None });
    let odd = derive_distance_range(&TrailQuery {
        min_km: Some(Fixed::from_micros(1)),
        max_km: Some(Fixed::from_micros(2)),
        ..TrailQuery::default()
    });
    assert_eq!(odd.target_km, Some(Fixed::from_micros(1)));
}

#[test]
fn score_formula() {
    let t = trail("t", km(7), Some(300), Difficulty::Hard, DogPolicy::Allowed);
    let range = DistanceRange { min_km: Some(km(2)), max_km: Some(km(6)), target_km: Some(km(4)) };
    // |7 - 4| + 2 * mismatch + 300 / 600, six hundred times over, in millionths
    assert_eq!(score_trail(&t, &range, None), 1_800_000_000 + 600_000_000 + 300_000_000);
    assert_eq!(score_trail(&t, &range, Some(&Effort::Easy)), 1_800_000_000 + 2_400_000_000 + 300_000_000);
    assert_eq!(score_trail(&t, &range, Some(&Effort::Steady)), 1_800_000_000 + 1_200_000_000 + 300_000_000);
    assert_eq!(score_trail(&t, &range, Some(&Effort::Hard)), 1_800_000_000 + 300_000_000);
    let open = DistanceRange { min_km: Some(km(2)), max_km: None, target_km: None };
    assert_eq!(score_trail(&t, &open, Some(&Effort::Hard)), 300_000_000);
    let flat = trail("f", km(4), None, Difficulty::Hard, DogPolicy::Allowed);
    assert_eq!(score_trail(&flat, &range, Some(&Effort::Hard)), 0);
}

#[test]
fn effort_changes_the_order() {
    let trails = vec![
        trail("easy", km(9), None, Difficulty::Easy, DogPolicy::Allowed),
        trail("hard", km(9), None, Difficulty::Hard, DogPolicy::Allowed),
    ];
    let query = TrailQuery { effort: Some(Effort::Hard), ..TrailQuery::default() };
    assert_eq!(ids(&filter_trails(&trails, &query)), vec!["hard".to_string(), "easy".to_string()]);
    let query = TrailQuery { effort: Some(Effort::Easy), ..TrailQuery::default() };
    assert_eq!(ids(&filter_trails(&trails, &query)), vec!["easy".to_string(), "hard".to_string()]);
}

#[test]
fn difficulty_ranks_and_penalties() {
    assert_eq!(difficulty_rank(&Difficulty::Easy), 1);
    assert_eq!(difficulty_rank(&Difficulty::Moderate), 2);
    assert_eq!(difficulty_rank(&Difficulty::Hard), 3);
    assert_eq!(difficulty_penalty(&Difficulty::Easy, &Difficulty::Hard), 2);
    assert_eq!(difficulty_penalty(&Difficulty::Hard, &Difficulty::Easy), 2);
    assert_eq!(difficulty_penalty(&Difficulty::Moderate, &Difficulty::Hard), 1);
    assert_eq!(difficulty_penalty(&Difficulty::Moderate, &Difficulty::Moderate), 0);
}

#[test]
fn results_are_copies_of_the_input() {
    let trails = sample_trails();
    let query = TrailQuery { dog: Some(DogFilter::Any), length: Some(Length::Long), ..TrailQuery::default() };
    let results = filter_trails(&trails, &query);
    assert_eq!(results.len(), 1);
    let t = &results[0];
    assert_eq!(t.id, "t2");
    assert_eq!(t.name, "Forest Ridge");
    assert_eq!(t.provider, Provider::AllTrails);
    assert_eq!(t.location, "Auckland");
    assert_eq!(t.elevation_gain_m, Some(Fixed::from_units(520)));
    assert_eq!(t.difficulty, Difficulty::Hard);
    assert_eq!(t.dog_policy, DogPolicy::NotAllowed);
    assert_eq!(t.dog_notes.as_deref(), Some("Dog-free section after 2km"));
    assert_eq!(t.surface, "Dirt");
    assert_eq!(t.map_url, "https://www.alltrails.com");
    assert_eq!(t.line_bbox, trails[1].line_bbox);
}
