//! The words in which queries and trails are shown and sent: the values of
//! form fields, labels, and text made safe for a page.

use vstd::prelude::*;
use vstd::string::StringExecFns;
use vstd::utf8::encode_utf8;
use crate::fixed::{decimal_text, digit_char, nat_digits, push_nat, Fixed};
use crate::geometry::Bbox;
use crate::model::{opt_text, Difficulty, DogFilter, DogPolicy, Effort, Length, Trail, TrailQuery};
use crate::text::{
    join, joined, percent_encoded, push_char, replace_char, replaced, str_eq, url_encode,
};

verus! {

/// What is written in a page for the character `c`: the five characters
/// that mean something to HTML are written as entities.
pub open spec fn escaped_char(c: char) -> Seq<char> {
    if c == '&' {
        "&amp;"@
    } else if c == '<' {
        "&lt;"@
    } else if c == '>' {
        "&gt;"@
    } else if c == '"' {
        "&quot;"@
    } else if c == '\'' {
        "&#39;"@
    } else {
        seq![c]
    }
}

/// `s` as it is written in a page, character by character.
pub open spec fn escaped(s: Seq<char>) -> Seq<char>
    decreases s.len(),
{
    if s.len() == 0 {
        Seq::empty()
    } else {
        escaped(s.drop_last()) + escaped_char(s.last())
    }
}

/// Makes text safe to put in a page; see [`escaped`].
pub fn html_escape(value: &str) -> (out: String)
    ensures
        out@ == escaped(value@),
{
    let mut out = String::new();
    for c in it: value.chars()
        invariant
            it.seq() == value@,
            out@ == escaped(value@.take(it.index() as int)),
    {
        proof {
            assert(value@.take(it.index() + 1).drop_last() =~= value@.take(it.index() as int));
        }
        if c == '&' {
            out.append("&amp;");
        } else if c == '<' {
            out.append("&lt;");
        } else if c == '>' {
            out.append("&gt;");
        } else if c == '"' {
            out.append("&quot;");
        } else if c == '\'' {
            out.append("&#39;");
        } else {
            push_char(&mut out, c);
        }
    }
    assert(value@.take(value@.len() as int) =~= value@);
    out
}

/// A field value as a label: with a space for every underscore.
pub fn format_label(value: &str) -> (out: String)
    ensures
        out@ == replaced(value@, '_', " "@),
{
    replace_char(value, '_', " ")
}

/// The attribute that marks the chosen option of a list.
pub fn selected(condition: bool) -> (out: &'static str)
    ensures
        out@ == if condition {
            "selected"@
        } else {
            ""@
        },
{
    if condition {
        "selected"
    } else {
        ""
    }
}

/// The number as a field value, empty where there is none.
pub fn value_or_empty(value: Option<Fixed>) -> (out: String)
    ensures
        out@ == match value {
            Some(v) => decimal_text(v.micros as int),
            None => Seq::empty(),
        },
{
    match value {
        Some(v) => v.to_text(),
        None => String::new(),
    }
}

impl Difficulty {
    /// The difficulty as a field value.
    pub open spec fn word(self) -> Seq<char> {
        match self {
            Difficulty::Easy => "easy"@,
            Difficulty::Moderate => "moderate"@,
            Difficulty::Hard => "hard"@,
        }
    }
}

impl DogFilter {
    /// The filter as a field value.
    pub open spec fn word(self) -> Seq<char> {
        match self {
            DogFilter::AllowedOnly => "allowed_only"@,
            DogFilter::AllowedOrPartial => "allowed_or_partial"@,
            DogFilter::Any => "any"@,
        }
    }
}

impl Effort {
    /// The effort as a field value.
    pub open spec fn word(self) -> Seq<char> {
        match self {
            Effort::Easy => "easy"@,
            Effort::Steady => "steady"@,
            Effort::Hard => "hard"@,
        }
    }
}

impl Length {
    /// The length as a field value.
    pub open spec fn word(self) -> Seq<char> {
        match self {
            Length::Short => "short"@,
            Length::Medium => "medium"@,
            Length::Long => "long"@,
        }
    }
}

impl DogPolicy {
    /// The policy as a field value.
    pub open spec fn word(self) -> Seq<char> {
        match self {
            DogPolicy::Allowed => "allowed"@,
            DogPolicy::Partial => "partial"@,
            DogPolicy::NotAllowed => "not_allowed"@,
            DogPolicy::Unknown => "unknown"@,
        }
    }
}

/// The difficulty filter as a field value; empty where any difficulty will
/// do.
pub fn difficulty_value(value: Option<&Difficulty>) -> (out: String)
    ensures
        out@ == match value {
            Some(d) => d.word(),
            None => ""@,
        },
{
    match value {
        Some(Difficulty::Easy) => "easy".to_string(),
        Some(Difficulty::Moderate) => "moderate".to_string(),
        Some(Difficulty::Hard) => "hard".to_string(),
        None => "".to_string(),
    }
}

/// The dog filter as a field value; without one, that of allowed or
/// partial.
pub fn dog_filter_value(value: Option<&DogFilter>) -> (out: String)
    ensures
        out@ == match value {
            Some(f) => f.word(),
            None => DogFilter::AllowedOrPartial.word(),
        },
{
    match value {
        Some(DogFilter::AllowedOnly) => "allowed_only".to_string(),
        Some(DogFilter::AllowedOrPartial) => "allowed_or_partial".to_string(),
        Some(DogFilter::Any) => "any".to_string(),
        None => "allowed_or_partial".to_string(),
    }
}

/// The effort as a field value; without one, that of steady.
pub fn effort_value(value: Option<&Effort>) -> (out: String)
    ensures
        out@ == match value {
            Some(e) => e.word(),
            None => Effort::Steady.word(),
        },
{
    match value {
        Some(Effort::Easy) => "easy".to_string(),
        Some(Effort::Steady) => "steady".to_string(),
        Some(Effort::Hard) => "hard".to_string(),
        None => "steady".to_string(),
    }
}

/// The length as a field value; without one, that of medium.
pub fn length_value(value: Option<&Length>) -> (out: String)
    ensures
        out@ == match value {
            Some(l) => l.word(),
            None => Length::Medium.word(),
        },
{
    match value {
        Some(Length::Short) => "short".to_string(),
        Some(Length::Medium) => "medium".to_string(),
        Some(Length::Long) => "long".to_string(),
        None => "medium".to_string(),
    }
}

/// The dog policy as a field value.
pub fn dog_policy_value(value: &DogPolicy) -> (out: String)
    ensures
        out@ == value.word(),
{
    match value {
        DogPolicy::Allowed => "allowed".to_string(),
        DogPolicy::Partial => "partial".to_string(),
        DogPolicy::NotAllowed => "not_allowed".to_string(),
        DogPolicy::Unknown => "unknown".to_string(),
    }
}

/// The box of whole hundredths of a degree.
pub open spec fn centi_box(min_lat: int, min_lon: int, max_lat: int, max_lon: int) -> Bbox {
    Bbox {
        min_lat: Fixed { micros: (min_lat * 10_000) as i64 },
        min_lon: Fixed { micros: (min_lon * 10_000) as i64 },
        max_lat: Fixed { micros: (max_lat * 10_000) as i64 },
        max_lon: Fixed { micros: (max_lon * 10_000) as i64 },
    }
}

/// The box of a region known by name: Wellington, Auckland, Queenstown and
/// Christchurch, in lower case.
pub open spec fn region_box(region: Seq<char>) -> Option<Bbox> {
    if region == "wellington"@ {
        Some(centi_box(-4135, 17472, -4124, 17482))
    } else if region == "auckland"@ {
        Some(centi_box(-3693, 17463, -3677, 17484))
    } else if region == "queenstown"@ {
        Some(centi_box(-4508, 16856, -4495, 16879))
    } else if region == "christchurch"@ {
        Some(centi_box(-4360, 17250, -4345, 17277))
    } else {
        None
    }
}

/// The box of whole hundredths of a degree.
fn hundredths(min_lat: i64, min_lon: i64, max_lat: i64, max_lon: i64) -> (b: Bbox)
    requires
        -18_000 <= min_lat <= 18_000,
        -18_000 <= min_lon <= 18_000,
        -18_000 <= max_lat <= 18_000,
        -18_000 <= max_lon <= 18_000,
    ensures
        b == centi_box(min_lat as int, min_lon as int, max_lat as int, max_lon as int),
{
    Bbox {
        min_lat: Fixed { micros: min_lat * 10_000 },
        min_lon: Fixed { micros: min_lon * 10_000 },
        max_lat: Fixed { micros: max_lat * 10_000 },
        max_lon: Fixed { micros: max_lon * 10_000 },
    }
}

/// The box of a region known by name; see [`region_box`].
pub fn region_bbox(region: &str) -> (r: Option<Bbox>)
    ensures
        r == region_box(region@),
{
    if str_eq(region, "wellington") {
        Some(hundredths(-4135, 17472, -4124, 17482))
    } else if str_eq(region, "auckland") {
        Some(hundredths(-3693, 17463, -3677, 17484))
    } else if str_eq(region, "queenstown") {
        Some(hundredths(-4508, 16856, -4495, 16879))
    } else if str_eq(region, "christchurch") {
        Some(hundredths(-4360, 17250, -4345, 17277))
    } else {
        None
    }
}

/// What a walker filled into the search form.
#[derive(Debug)]
pub struct PageQuery {
    pub region: Option<String>,
    pub min_km: Option<Fixed>,
    pub max_km: Option<Fixed>,
    pub difficulty: Option<Difficulty>,
    pub dog: Option<DogFilter>,
    pub effort: Option<Effort>,
    pub length: Option<Length>,
    pub min_lat: Option<Fixed>,
    pub min_lon: Option<Fixed>,
    pub max_lat: Option<Fixed>,
    pub max_lon: Option<Fixed>,
}

impl PageQuery {
    /// The query as the form states it, the region aside.
    pub open spec fn stated(self) -> TrailQuery {
        TrailQuery {
            min_km: self.min_km,
            max_km: self.max_km,
            difficulty: self.difficulty,
            dog: self.dog,
            effort: self.effort,
            length: self.length,
            min_lat: self.min_lat,
            min_lon: self.min_lon,
            max_lat: self.max_lat,
            max_lon: self.max_lon,
        }
    }

    /// The query that the form stands for. Where the form does not give all
    /// four corners of a box but names a known region, the box is that of
    /// the region.
    pub open spec fn spec_trail_query(self) -> TrailQuery {
        let q = self.stated();
        if Bbox::spec_from_query(q) is None && self.region is Some && region_box(
            self.region->0@,
        ) is Some {
            let b = region_box(self.region->0@)->0;
            TrailQuery {
                min_lat: Some(b.min_lat),
                min_lon: Some(b.min_lon),
                max_lat: Some(b.max_lat),
                max_lon: Some(b.max_lon),
                ..q
            }
        } else {
            q
        }
    }

    /// The query that the form stands for; see
    /// [`PageQuery::spec_trail_query`].
    pub fn to_trail_query(&self) -> (q: TrailQuery)
        ensures
            q == self.spec_trail_query(),
    {
        let mut query = TrailQuery {
            min_km: self.min_km,
            max_km: self.max_km,
            difficulty: self.difficulty,
            dog: self.dog,
            effort: self.effort,
            length: self.length,
            min_lat: self.min_lat,
            min_lon: self.min_lon,
            max_lat: self.max_lat,
            max_lon: self.max_lon,
        };
        if Bbox::from_query(&query).is_none() {
            if let Some(region) = &self.region {
                if let Some(bbox) = region_bbox(region.as_str()) {
                    query.min_lat = Some(bbox.min_lat);
                    query.min_lon = Some(bbox.min_lon);
                    query.max_lat = Some(bbox.max_lat);
                    query.max_lon = Some(bbox.max_lon);
                }
            }
        }
        query
    }
}

/// The warning shown with a trail on which dogs are not simply allowed: the
/// provider's note, or a general one where it left none.
pub open spec fn warning_text(policy: DogPolicy, notes: Option<Seq<char>>) -> Option<Seq<char>> {
    if policy == DogPolicy::Allowed {
        None
    } else {
        Some(
            match notes {
                Some(n) => n,
                None => "Dog access has restrictions."@,
            },
        )
    }
}

/// The warning shown with a trail, if any; see [`warning_text`].
pub fn dog_warning(trail: &Trail) -> (r: Option<String>)
    ensures
        opt_text(r) == warning_text(trail@.dog_policy, trail@.dog_notes),
{
    if trail.dog_policy == DogPolicy::Allowed {
        None
    } else {
        match &trail.dog_notes {
            Some(notes) => Some(notes.clone()),
            None => Some("Dog access has restrictions.".to_string()),
        }
    }
}

/// The number of tenths nearest to a distance that is not negative; a
/// distance half-way between two goes up.
pub open spec fn tenths(micros: int) -> int {
    (micros + 50_000) / 100_000
}

/// How the length of a trail is shown: in kilometres to one decimal, or as
/// unknown where it is zero. A negative length is shown as unknown too.
pub open spec fn distance_text(distance_km: Fixed) -> Seq<char> {
    if distance_km.micros <= 0 {
        "distance unknown"@
    } else {
        nat_digits((tenths(distance_km.micros as int) / 10) as nat).push('.').push(
            digit_char((tenths(distance_km.micros as int) % 10) as nat),
        ) + " km"@
    }
}

/// How the length of a trail is shown; see [`distance_text`].
pub fn distance_label(distance_km: Fixed) -> (out: String)
    ensures
        out@ == distance_text(distance_km),
{
    if distance_km.micros <= 0 {
        return "distance unknown".to_string();
    }
    let rounded: u64 = ((distance_km.micros as u64) + 50_000) / 100_000;
    let mut out = String::new();
    push_nat(&mut out, rounded / 10);
    push_char(&mut out, '.');
    push_nat(&mut out, rounded % 10);
    out.append(" km");
    out
}

/// What a walker has chosen on the map page.
#[derive(Clone, Copy, Debug)]
pub struct Filters {
    pub effort: Effort,
    pub length: Length,
    pub dog: DogFilter,
    pub difficulty: Option<Difficulty>,
    pub min_km: Fixed,
    pub max_km: Fixed,
    pub autorefresh: bool,
    pub bbox: Bbox,
}

impl Filters {
    /// The choices a walker starts from: a steady walk of medium length, up
    /// to 70 km, on which dogs are allowed at least in part, in the default
    /// region.
    pub open spec fn initial() -> Filters {
        Filters {
            effort: Effort::Steady,
            length: Length::Medium,
            dog: DogFilter::AllowedOrPartial,
            difficulty: None,
            min_km: Fixed { micros: 0 },
            max_km: Fixed { micros: 70_000_000 },
            autorefresh: true,
            bbox: Bbox::default_region(),
        }
    }

    /// The choices by name, each with its value as text, in the order they
    /// are sent: the box, effort, length, dogs, the distances, and the
    /// difficulty where one is chosen.
    pub open spec fn params(self) -> Seq<(Seq<char>, Seq<char>)> {
        self.bbox.spec_to_query() + seq![
            ("effort"@, self.effort.word()),
            ("length"@, self.length.word()),
            ("dog"@, self.dog.word()),
            ("min_km"@, decimal_text(self.min_km.micros as int)),
            ("max_km"@, decimal_text(self.max_km.micros as int)),
        ] + match self.difficulty {
            Some(d) => seq![("difficulty"@, d.word())],
            None => Seq::empty(),
        }
    }

    /// The address that asks for the trails of these choices: every choice
    /// as `name=value`, the value percent-encoded, with `&` between them.
    pub open spec fn request_text(self) -> Seq<char> {
        "/api/trails?"@ + joined(
            Seq::new(self.params().len(), |i: int| param_text(self.params()[i])),
            "&"@,
        )
    }

    /// The address that asks for the trails of these choices; see
    /// [`Filters::request_text`].
    pub fn trails_request(&self) -> (out: String)
        ensures
            out@ == self.request_text(),
    {
        let mut parts: Vec<String> = Vec::new();
        parts.push(param("min_lat", self.bbox.min_lat.to_text().as_str()));
        parts.push(param("min_lon", self.bbox.min_lon.to_text().as_str()));
        parts.push(param("max_lat", self.bbox.max_lat.to_text().as_str()));
        parts.push(param("max_lon", self.bbox.max_lon.to_text().as_str()));
        parts.push(param("effort", effort_value(Some(&self.effort)).as_str()));
        parts.push(param("length", length_value(Some(&self.length)).as_str()));
        parts.push(param("dog", dog_filter_value(Some(&self.dog)).as_str()));
        parts.push(param("min_km", self.min_km.to_text().as_str()));
        parts.push(param("max_km", self.max_km.to_text().as_str()));
        match &self.difficulty {
            Some(d) => parts.push(param("difficulty", difficulty_value(Some(d)).as_str())),
            None => {},
        }
        assert(Seq::new(parts@.len(), |i: int| parts@[i]@) =~= Seq::new(
            self.params().len(),
            |i: int| param_text(self.params()[i]),
        ));
        let mut out = "/api/trails?".to_string();
        out.append(join(&parts, "&").as_str());
        out
    }
}

impl Default for Filters {
    fn default() -> (f: Self)
        ensures
            f == Filters::initial(),
    {
        Filters {
            effort: Effort::Steady,
            length: Length::Medium,
            dog: DogFilter::AllowedOrPartial,
            difficulty: None,
            min_km: Fixed { micros: 0 },
            max_km: Fixed { micros: 70_000_000 },
            autorefresh: true,
            bbox: Bbox::default(),
        }
    }
}

/// One choice as it is sent: `name=value`, the value percent-encoded.
pub open spec fn param_text(pair: (Seq<char>, Seq<char>)) -> Seq<char> {
    pair.0 + "="@ + percent_encoded(encode_utf8(pair.1))
}

/// One choice as it is sent; see [`param_text`].
fn param(name: &str, value: &str) -> (out: String)
    ensures
        out@ == param_text((name@, value@)),
{
    let mut out = name.to_string();
    out.append("=");
    out.append(url_encode(value).as_str());
    out
}

} // verus!
