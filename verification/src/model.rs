//! The provider-independent record of a trail, and what a walker may ask for.

use vstd::prelude::*;
use crate::fixed::Fixed;
use crate::geometry::{is_bounding_box, Bbox, Point};

verus! {

/// How demanding a trail is.
#[derive(Clone, Copy, PartialEq, Eq, Structural, Debug)]
pub enum Difficulty {
    Easy,
    Moderate,
    Hard,
}

impl Difficulty {
    /// The difficulty assumed for a trail of the given length where the
    /// provider states none: up to 6 km is easy, up to 14 km moderate.
    pub open spec fn spec_for_distance(distance_km: Fixed) -> Difficulty {
        if distance_km.micros <= 6_000_000 {
            Difficulty::Easy
        } else if distance_km.micros <= 14_000_000 {
            Difficulty::Moderate
        } else {
            Difficulty::Hard
        }
    }

    /// The difficulty assumed for a trail of the given length where the
    /// provider states none: up to 6 km is easy, up to 14 km moderate.
    pub fn for_distance(distance_km: Fixed) -> (d: Difficulty)
        ensures
            d == Difficulty::spec_for_distance(distance_km),
    {
        if distance_km.micros <= 6_000_000 {
            Difficulty::Easy
        } else if distance_km.micros <= 14_000_000 {
            Difficulty::Moderate
        } else {
            Difficulty::Hard
        }
    }

    /// The place of the difficulty on the scale from 1, easy, to 3, hard.
    pub open spec fn spec_rank(self) -> int {
        match self {
            Difficulty::Easy => 1,
            Difficulty::Moderate => 2,
            Difficulty::Hard => 3,
        }
    }
}

/// Whether dogs may use a trail.
#[derive(Clone, Copy, PartialEq, Eq, Structural, Debug)]
pub enum DogPolicy {
    /// Dogs are welcome.
    Allowed,
    /// Dogs are welcome under conditions, such as on a lead.
    Partial,
    /// Dogs are not permitted.
    NotAllowed,
    /// The provider gave no indication either way.
    Unknown,
}

/// Where a trail record came from.
#[derive(Clone, Copy, PartialEq, Eq, Structural, Debug)]
pub enum Provider {
    DOC,
    OpenStreetMap,
    AllTrails,
}

/// Which dog policies a walker accepts.
#[derive(Clone, Copy, PartialEq, Eq, Structural, Debug)]
pub enum DogFilter {
    AllowedOnly,
    AllowedOrPartial,
    Any,
}

/// The effort a walker is after.
#[derive(Clone, Copy, PartialEq, Eq, Structural, Debug)]
pub enum Effort {
    Easy,
    Steady,
    Hard,
}

/// The length of walk a walker is after, as a bucket.
#[derive(Clone, Copy, PartialEq, Eq, Structural, Debug)]
pub enum Length {
    Short,
    Medium,
    Long,
}

/// One trail, in the schema shared by all providers.
///
/// A `distance_km` of zero means that the length is unknown, not that the
/// trail has no length.
#[derive(Debug)]
pub struct Trail {
    pub id: String,
    pub name: String,
    pub provider: Provider,
    pub location: String,
    pub distance_km: Fixed,
    pub elevation_gain_m: Option<Fixed>,
    pub difficulty: Difficulty,
    pub dog_policy: DogPolicy,
    pub dog_notes: Option<String>,
    pub surface: String,
    pub map_url: String,
    pub lat: Fixed,
    pub lon: Fixed,
    pub line: Vec<Point>,
    pub line_bbox: Bbox,
}

/// The mathematical content of a [`Trail`].
pub struct TrailView {
    pub id: Seq<char>,
    pub name: Seq<char>,
    pub provider: Provider,
    pub location: Seq<char>,
    pub distance_km: Fixed,
    pub elevation_gain_m: Option<Fixed>,
    pub difficulty: Difficulty,
    pub dog_policy: DogPolicy,
    pub dog_notes: Option<Seq<char>>,
    pub surface: Seq<char>,
    pub map_url: Seq<char>,
    pub lat: Fixed,
    pub lon: Fixed,
    pub line: Seq<Point>,
    pub line_bbox: Bbox,
}

/// The characters of an optional string.
pub open spec fn opt_text(s: Option<String>) -> Option<Seq<char>> {
    match s {
        Some(t) => Some(t@),
        None => None,
    }
}

impl View for Trail {
    type V = TrailView;

    open spec fn view(&self) -> TrailView {
        TrailView {
            id: self.id@,
            name: self.name@,
            provider: self.provider,
            location: self.location@,
            distance_km: self.distance_km,
            elevation_gain_m: self.elevation_gain_m,
            difficulty: self.difficulty,
            dog_policy: self.dog_policy,
            dog_notes: opt_text(self.dog_notes),
            surface: self.surface@,
            map_url: self.map_url@,
            lat: self.lat,
            lon: self.lon,
            line: self.line@,
            line_bbox: self.line_bbox,
        }
    }
}

impl TrailView {
    /// The box of a trail is the bounding box of its line, or the trail's
    /// own point repeated on both corners where it has no line.
    pub open spec fn wf(self) -> bool {
        if self.line.len() == 0 {
            self.line_bbox == Bbox::spec_point(self.lat, self.lon)
        } else {
            is_bounding_box(self.line_bbox, self.line)
        }
    }
}

impl Clone for Trail {
    fn clone(&self) -> (copy: Self)
        ensures
            copy@ == self@,
    {
        let dog_notes = match &self.dog_notes {
            Some(notes) => Some(notes.clone()),
            None => None,
        };
        Trail {
            id: self.id.clone(),
            name: self.name.clone(),
            provider: self.provider,
            location: self.location.clone(),
            distance_km: self.distance_km,
            elevation_gain_m: self.elevation_gain_m,
            difficulty: self.difficulty,
            dog_policy: self.dog_policy,
            dog_notes,
            surface: self.surface.clone(),
            map_url: self.map_url.clone(),
            lat: self.lat,
            lon: self.lon,
            line: self.line.clone(),
            line_bbox: self.line_bbox,
        }
    }
}

/// The contents of a list of trails.
pub open spec fn views(trails: Seq<Trail>) -> Seq<TrailView> {
    Seq::new(trails.len(), |i: int| trails[i]@)
}

/// Copies a list of trails.
pub fn clone_trails(trails: &Vec<Trail>) -> (copy: Vec<Trail>)
    ensures
        views(copy@) == views(trails@),
{
    let mut copy: Vec<Trail> = Vec::new();
    let mut i: usize = 0;
    while i < trails.len()
        invariant
            i <= trails.len(),
            copy@.len() == i,
            forall|k: int| 0 <= k < i ==> copy@[k]@ == trails@[k]@,
        decreases trails.len() - i,
    {
        copy.push(trails[i].clone());
        i = i + 1;
    }
    copy
}

/// What a walker asks for. Every field may be left open.
#[derive(Clone, Copy, Debug)]
pub struct TrailQuery {
    pub min_km: Option<Fixed>,
    pub max_km: Option<Fixed>,
    pub difficulty: Option<Difficulty>,
    pub dog: Option<DogFilter>,
    pub effort: Option<Effort>,
    pub length: Option<Length>,
    pub min_lat: Option<Fixed>,
    pub min_lon: Option<Fixed>,
    pub max_lat: Option<Fixed>,
    pub max_lon: Option<Fixed>,
}

impl TrailQuery {
    /// The query that leaves everything open.
    pub open spec fn open_query() -> TrailQuery {
        TrailQuery {
            min_km: None,
            max_km: None,
            difficulty: None,
            dog: None,
            effort: None,
            length: None,
            min_lat: None,
            min_lon: None,
            max_lat: None,
            max_lon: None,
        }
    }
}

impl Default for TrailQuery {
    fn default() -> (q: Self)
        ensures
            q == TrailQuery::open_query(),
    {
        TrailQuery {
            min_km: None,
            max_km: None,
            difficulty: None,
            dog: None,
            effort: None,
            length: None,
            min_lat: None,
            min_lon: None,
            max_lat: None,
            max_lon: None,
        }
    }
}

/// Why trails could not be fetched, in words.
#[derive(Debug)]
pub struct TrailError(pub String);

impl View for TrailError {
    type V = Seq<char>;

    open spec fn view(&self) -> Seq<char> {
        self.0@
    }
}

impl TrailError {
    /// The error with the given message.
    pub fn new(message: &str) -> (e: TrailError)
        ensures
            e@ == message@,
    {
        TrailError(message.to_string())
    }

    /// The message.
    pub fn message(&self) -> (m: String)
        ensures
            m@ == self@,
    {
        self.0.clone()
    }
}

impl Clone for TrailError {
    fn clone(&self) -> (copy: Self)
        ensures
            copy@ == self@,
    {
        TrailError(self.0.clone())
    }
}

impl Provider {
    /// The provider's name as shown to walkers.
    pub open spec fn spec_label(self) -> Seq<char> {
        match self {
            Provider::DOC => "DOC"@,
            Provider::OpenStreetMap => "OpenStreetMap"@,
            Provider::AllTrails => "AllTrails"@,
        }
    }

    /// The provider's name as shown to walkers.
    pub fn label(&self) -> (name: String)
        ensures
            name@ == self.spec_label(),
    {
        match self {
            Provider::DOC => "DOC".to_string(),
            Provider::OpenStreetMap => "OpenStreetMap".to_string(),
            Provider::AllTrails => "AllTrails".to_string(),
        }
    }
}

/// What is known about a source of trail data.
#[derive(Debug)]
pub struct ProviderInfo {
    pub name: String,
    pub api_status: String,
    pub notes: String,
    pub website: String,
}

/// The mathematical content of a [`ProviderInfo`].
pub struct ProviderInfoView {
    pub name: Seq<char>,
    pub api_status: Seq<char>,
    pub notes: Seq<char>,
    pub website: Seq<char>,
}

impl View for ProviderInfo {
    type V = ProviderInfoView;

    open spec fn view(&self) -> ProviderInfoView {
        ProviderInfoView {
            name: self.name@,
            api_status: self.api_status@,
            notes: self.notes@,
            website: self.website@,
        }
    }
}

impl Clone for ProviderInfo {
    fn clone(&self) -> (copy: Self)
        ensures
            copy@ == self@,
    {
        ProviderInfo {
            name: self.name.clone(),
            api_status: self.api_status.clone(),
            notes: self.notes.clone(),
            website: self.website.clone(),
        }
    }
}

impl ProviderInfo {
    /// The providers this library knows of, in the order they are shown.
    pub open spec fn known() -> Seq<ProviderInfoView> {
        seq![
            ProviderInfoView {
                name: "NZ Department of Conservation (DOC)"@,
                api_status: "Public API (key required)"@,
                notes: "Set DOC_API_KEY to enable DOC track data."@,
                website: "https://www.doc.govt.nz"@,
            },
            ProviderInfoView {
                name: "AllTrails"@,
                api_status: "No public trails API confirmed"@,
                notes: "Consider user-provided links or approved data feeds; avoid scraping without permission."@,
                website: "https://www.alltrails.com"@,
            },
            ProviderInfoView {
                name: "OpenStreetMap Overpass"@,
                api_status: "Public API"@,
                notes: "Uses public OSM data with dog access tags when present."@,
                website: "https://overpass-api.de"@,
            },
        ]
    }

    /// The providers this library knows of, in the order they are shown.
    pub fn default_providers() -> (list: Vec<Self>)
        ensures
            list@.len() == 3,
            forall|i: int| 0 <= i < 3 ==> (#[trigger] list@[i])@ == Self::known()[i],
    {
        let mut list: Vec<ProviderInfo> = Vec::new();
        list.push(
            ProviderInfo {
                name: "NZ Department of Conservation (DOC)".to_string(),
                api_status: "Public API (key required)".to_string(),
                notes: "Set DOC_API_KEY to enable DOC track data.".to_string(),
                website: "https://www.doc.govt.nz".to_string(),
            },
        );
        list.push(
            ProviderInfo {
                name: "AllTrails".to_string(),
                api_status: "No public trails API confirmed".to_string(),
                notes: "Consider user-provided links or approved data feeds; avoid scraping without permission.".to_string(),
                website: "https://www.alltrails.com".to_string(),
            },
        );
        list.push(
            ProviderInfo {
                name: "OpenStreetMap Overpass".to_string(),
                api_status: "Public API".to_string(),
                notes: "Uses public OSM data with dog access tags when present.".to_string(),
                website: "https://overpass-api.de".to_string(),
            },
        );
        list
    }
}

} // verus!
