//! Choosing and ordering trails for a walker.
//!
//! A trail is kept when it passes the walker's filters on dogs, difficulty
//! and distance. The trails kept are ordered by a score that is lower the
//! better a trail fits; trails with the same score stay in the order in which
//! they came.

use vstd::prelude::*;
use crate::fixed::Fixed;
use crate::model::{
    views, Difficulty, DogFilter, DogPolicy, Effort, Length, Trail, TrailQuery, TrailView,
};

verus! {

/// The distances a walker accepts, and the distance they would like best.
#[derive(Clone, Copy, PartialEq, Eq, Structural, Debug)]
pub struct DistanceRange {
    pub min_km: Option<Fixed>,
    pub max_km: Option<Fixed>,
    pub target_km: Option<Fixed>,
}

/// The number half-way between `a` and `b`, rounded down to a millionth.
pub open spec fn midpoint(a: Fixed, b: Fixed) -> Fixed {
    Fixed { micros: ((a.micros + b.micros) / 2) as i64 }
}

/// The range of the whole numbers of kilometres `min` to `max`, aiming for
/// the middle.
pub open spec fn bucket(min: int, max: int) -> DistanceRange {
    DistanceRange {
        min_km: Some(Fixed { micros: (min * 1_000_000) as i64 }),
        max_km: Some(Fixed { micros: (max * 1_000_000) as i64 }),
        target_km: Some(Fixed { micros: ((min + max) * 500_000) as i64 }),
    }
}

/// The distances that a query accepts. Bounds that the query states count
/// as they are, with the middle as the target where both are stated. Without
/// any, the bucket counts: short is 2 to 6 km, medium, also the default, 6 to
/// 12 km, and long 12 to 24 km.
pub open spec fn distance_range(q: TrailQuery) -> DistanceRange {
    if q.min_km is Some || q.max_km is Some {
        DistanceRange {
            min_km: q.min_km,
            max_km: q.max_km,
            target_km: if q.min_km is Some && q.max_km is Some {
                Some(midpoint(q.min_km->0, q.max_km->0))
            } else {
                None
            },
        }
    } else {
        match q.length {
            Some(Length::Short) => bucket(2, 6),
            Some(Length::Long) => bucket(12, 24),
            _ => bucket(6, 12),
        }
    }
}

/// The dog filter of a query: the one it states, else allowed or partial.
pub open spec fn dog_filter(q: TrailQuery) -> DogFilter {
    match q.dog {
        Some(f) => f,
        None => DogFilter::AllowedOrPartial,
    }
}

/// A walker with the filter `filter` accepts the policy `policy`.
pub open spec fn accepts(filter: DogFilter, policy: DogPolicy) -> bool {
    match filter {
        DogFilter::AllowedOnly => policy == DogPolicy::Allowed,
        DogFilter::AllowedOrPartial => policy == DogPolicy::Allowed || policy == DogPolicy::Partial,
        DogFilter::Any => true,
    }
}

/// The distance lies in the range. A distance of zero, which stands for an
/// unknown one, lies in every range.
pub open spec fn in_range(distance_km: Fixed, range: DistanceRange) -> bool {
    ||| distance_km.micros == 0
    ||| {
        &&& range.min_km matches Some(min) ==> distance_km.micros >= min.micros
        &&& range.max_km matches Some(max) ==> distance_km.micros <= max.micros
    }
}

/// The trail passes every filter of the query.
pub open spec fn keeps(t: TrailView, q: TrailQuery) -> bool {
    &&& accepts(dog_filter(q), t.dog_policy)
    &&& q.difficulty matches Some(d) ==> t.difficulty == d
    &&& in_range(t.distance_km, distance_range(q))
}

/// The place on the scale from 1 to 3 that an effort asks for.
pub open spec fn effort_rank(e: Effort) -> int {
    match e {
        Effort::Easy => 1,
        Effort::Steady => 2,
        Effort::Hard => 3,
    }
}

/// The distance between two whole numbers.
pub open spec fn gap(a: int, b: int) -> int {
    if a >= b {
        a - b
    } else {
        b - a
    }
}

/// How badly a trail fits; lower is better. It is
/// `|distance - target| + 2 * mismatch + ascent / 600`, with kilometres,
/// metres of ascent, and for the mismatch the steps between the trail's
/// difficulty and the effort asked for, or half a step where none is asked
/// for. A missing target or ascent adds nothing. To stay a whole number the
/// score is given 600 times over, in millionths.
pub open spec fn score(t: TrailView, range: DistanceRange, effort: Option<Effort>) -> int {
    let off_target = match range.target_km {
        Some(target) => gap(t.distance_km.micros as int, target.micros as int),
        None => 0,
    };
    let mismatch = match effort {
        Some(e) => 1_200_000_000 * gap(t.difficulty.spec_rank(), effort_rank(e)),
        None => 600_000_000,
    };
    let ascent = match t.elevation_gain_m {
        Some(e) => e.micros as int,
        None => 0,
    };
    600 * off_target + mismatch + ascent
}

/// The score of a trail under a query.
pub open spec fn query_score(t: TrailView, q: TrailQuery) -> int {
    score(t, distance_range(q), q.effort)
}

/// In a ranking, the trail at `i` comes before the one at `j`: it has the
/// lower score, or the same score and the earlier place in the list.
pub open spec fn precedes(trails: Seq<TrailView>, q: TrailQuery, i: int, j: int) -> bool {
    ||| query_score(trails[i], q) < query_score(trails[j], q)
    ||| (query_score(trails[i], q) == query_score(trails[j], q) && i < j)
}

/// `order` lists the positions of exactly those of `trails` that the query
/// keeps, each before all that it precedes.
pub open spec fn is_ranking(order: Seq<int>, trails: Seq<TrailView>, q: TrailQuery) -> bool {
    &&& forall|k: int|
        0 <= k < order.len() ==> 0 <= #[trigger] order[k] < trails.len() && keeps(
            trails[order[k]],
            q,
        )
    &&& forall|j: int| 0 <= j < trails.len() && keeps(#[trigger] trails[j], q) ==> order.contains(j)
    &&& forall|a: int, b: int|
        0 <= a < b < order.len() ==> precedes(trails, q, #[trigger] order[a], #[trigger] order[b])
}

/// The trails at the positions that `order` lists.
pub open spec fn picked(order: Seq<int>, trails: Seq<TrailView>) -> Seq<TrailView> {
    Seq::new(order.len(), |k: int| trails[order[k]])
}

/// Two lists in which every entry precedes all later ones, with the same
/// entries, are the same list.
proof fn lemma_sorted_unique(a: Seq<int>, b: Seq<int>, trails: Seq<TrailView>, q: TrailQuery)
    requires
        forall|i: int, j: int|
            0 <= i < j < a.len() ==> precedes(trails, q, #[trigger] a[i], #[trigger] a[j]),
        forall|i: int, j: int|
            0 <= i < j < b.len() ==> precedes(trails, q, #[trigger] b[i], #[trigger] b[j]),
        forall|x: int| a.contains(x) <==> b.contains(x),
    ensures
        a == b,
    decreases a.len(),
{
    if a.len() == 0 {
        if b.len() > 0 {
            assert(b.contains(b[0]));
        }
    } else {
        // Each list begins with the one entry that precedes all others, so
        // the two begin alike, and their tails are two such lists again.
        assert(a.contains(a[0]));
        assert(b.contains(b[0]));
        let ta = a.drop_first();
        let tb = b.drop_first();
        assert forall|x: int| ta.contains(x) <==> tb.contains(x) by {
            if ta.contains(x) {
                assert(a.contains(x));
                let m = choose|m: int| 0 <= m < b.len() && b[m] == x;
                assert(tb[m - 1] == x);
            }
            if tb.contains(x) {
                assert(b.contains(x));
                let m = choose|m: int| 0 <= m < a.len() && a[m] == x;
                assert(ta[m - 1] == x);
            }
        }
        assert forall|i: int, j: int| 0 <= i < j < ta.len() implies precedes(
            trails,
            q,
            #[trigger] ta[i],
            #[trigger] ta[j],
        ) by {}
        assert forall|i: int, j: int| 0 <= i < j < tb.len() implies precedes(
            trails,
            q,
            #[trigger] tb[i],
            #[trigger] tb[j],
        ) by {}
        lemma_sorted_unique(ta, tb, trails, q);
        assert(b =~= seq![b[0]] + tb);
    }
}

/// A list of trails has one ranking under a query, and no second.
pub proof fn lemma_ranking_unique(a: Seq<int>, b: Seq<int>, trails: Seq<TrailView>, q: TrailQuery)
    requires
        is_ranking(a, trails, q),
        is_ranking(b, trails, q),
    ensures
        a == b,
{
    assert forall|x: int| a.contains(x) <==> b.contains(x) by {}
    lemma_sorted_unique(a, b, trails, q);
}

/// A trail of unknown length passes the distance filter whatever the bounds
/// are.
pub proof fn lemma_unknown_distance_in_range(distance_km: Fixed, range: DistanceRange)
    requires
        distance_km.micros == 0,
    ensures
        in_range(distance_km, range),
{
}

/// A trail of unknown length that passes the filters on dogs and on
/// difficulty is in every ranking.
pub proof fn lemma_unknown_distance_ranked(
    order: Seq<int>,
    trails: Seq<TrailView>,
    q: TrailQuery,
    j: int,
)
    requires
        is_ranking(order, trails, q),
        0 <= j < trails.len(),
        trails[j].distance_km.micros == 0,
        accepts(dog_filter(q), trails[j].dog_policy),
        q.difficulty matches Some(d) ==> trails[j].difficulty == d,
    ensures
        order.contains(j),
{
}

/// Whether a walker with the filter `filter` accepts the trail.
pub fn dog_policy_allows(trail: &Trail, filter: &DogFilter) -> (r: bool)
    ensures
        r == accepts(*filter, trail@.dog_policy),
{
    match filter {
        DogFilter::AllowedOnly => trail.dog_policy == DogPolicy::Allowed,
        DogFilter::AllowedOrPartial => trail.dog_policy == DogPolicy::Allowed || trail.dog_policy
            == DogPolicy::Partial,
        DogFilter::Any => true,
    }
}

/// The range of the whole numbers of kilometres `min` to `max`.
fn whole_range(min: i64, max: i64) -> (r: DistanceRange)
    requires
        0 <= min <= max <= 1000,
    ensures
        r == bucket(min as int, max as int),
{
    DistanceRange {
        min_km: Some(Fixed { micros: min * 1_000_000 }),
        max_km: Some(Fixed { micros: max * 1_000_000 }),
        target_km: Some(Fixed { micros: (min + max) * 500_000 }),
    }
}

/// The number half-way between `a` and `b`, rounded down to a millionth.
fn halfway(a: Fixed, b: Fixed) -> (r: Fixed)
    ensures
        r == midpoint(a, b),
{
    let sum: i128 = (a.micros as i128) + (b.micros as i128);
    let half: i128 = if sum >= 0 {
        sum / 2
    } else {
        -((1 - sum) / 2)
    };
    Fixed { micros: half as i64 }
}

/// The distances that a query accepts; see [`distance_range`].
pub fn derive_distance_range(query: &TrailQuery) -> (r: DistanceRange)
    ensures
        r == distance_range(*query),
{
    if query.min_km.is_some() || query.max_km.is_some() {
        let target_km = match (query.min_km, query.max_km) {
            (Some(min), Some(max)) => Some(halfway(min, max)),
            _ => None,
        };
        return DistanceRange { min_km: query.min_km, max_km: query.max_km, target_km };
    }
    match query.length {
        Some(Length::Short) => whole_range(2, 6),
        Some(Length::Long) => whole_range(12, 24),
        _ => whole_range(6, 12),
    }
}

/// Whether the distance lies in the range; see [`in_range`].
pub fn within_distance(distance_km: Fixed, range: &DistanceRange) -> (r: bool)
    ensures
        r == in_range(distance_km, *range),
{
    if distance_km.micros == 0 {
        return true;
    }
    if let Some(min) = range.min_km {
        if distance_km.micros < min.micros {
            return false;
        }
    }
    if let Some(max) = range.max_km {
        if distance_km.micros > max.micros {
            return false;
        }
    }
    true
}

/// The place of a difficulty on the scale from 1, easy, to 3, hard.
pub fn difficulty_rank(difficulty: &Difficulty) -> (r: i32)
    ensures
        r == difficulty.spec_rank(),
{
    match difficulty {
        Difficulty::Easy => 1,
        Difficulty::Moderate => 2,
        Difficulty::Hard => 3,
    }
}

/// The steps between two difficulties.
pub fn difficulty_penalty(actual: &Difficulty, preferred: &Difficulty) -> (r: i32)
    ensures
        r == gap(actual.spec_rank(), preferred.spec_rank()),
{
    let a = difficulty_rank(actual);
    let p = difficulty_rank(preferred);
    if a >= p {
        a - p
    } else {
        p - a
    }
}

/// The difficulty that suits an effort.
fn effort_difficulty(effort: &Effort) -> (d: Difficulty)
    ensures
        d.spec_rank() == effort_rank(*effort),
{
    match effort {
        Effort::Easy => Difficulty::Easy,
        Effort::Steady => Difficulty::Moderate,
        Effort::Hard => Difficulty::Hard,
    }
}

/// How badly a trail fits; see [`score`].
pub fn score_trail(trail: &Trail, range: &DistanceRange, effort: Option<&Effort>) -> (r: i128)
    ensures
        r == score(
            trail@,
            *range,
            match effort {
                Some(e) => Some(*e),
                None => None,
            },
        ),
{
    let off_target: i128 = match range.target_km {
        Some(target) => {
            let d = trail.distance_km.micros as i128;
            let t = target.micros as i128;
            if d >= t {
                d - t
            } else {
                t - d
            }
        },
        None => 0,
    };
    let mismatch: i128 = match effort {
        Some(e) => 1_200_000_000 * (difficulty_penalty(
            &trail.difficulty,
            &effort_difficulty(e),
        ) as i128),
        None => 600_000_000,
    };
    let ascent: i128 = match trail.elevation_gain_m {
        Some(e) => e.micros as i128,
        None => 0,
    };
    600 * off_target + mismatch + ascent
}

/// Whether the trail passes every filter of the query; see [`keeps`].
pub fn passes(trail: &Trail, query: &TrailQuery) -> (r: bool)
    ensures
        r == keeps(trail@, *query),
{
    let filter = match query.dog {
        Some(f) => f,
        None => DogFilter::AllowedOrPartial,
    };
    let range = derive_distance_range(query);
    dog_policy_allows(trail, &filter) && (match query.difficulty {
        Some(d) => trail.difficulty == d,
        None => true,
    }) && within_distance(trail.distance_km, &range)
}

/// `a` is not after `b`: it has the smaller first part, or the same first
/// part and not the larger second.
pub open spec fn pair_le(a: (i128, usize), b: (i128, usize)) -> bool {
    a.0 < b.0 || (a.0 == b.0 && a.1 <= b.1)
}

/// Trusted: `slice::sort`, called on a vector of pairs of integers,
/// rearranges the pairs so that they ascend, pairs being compared by their
/// first part and then by their second. Nothing is added or lost.
#[verifier::external_body]
fn sort_pairs(pairs: &mut Vec<(i128, usize)>)
    ensures
        final(pairs)@.to_multiset() == old(pairs)@.to_multiset(),
        forall|a: int, b: int|
            0 <= a < b < final(pairs)@.len() ==> pair_le(
                #[trigger] final(pairs)@[a],
                #[trigger] final(pairs)@[b],
            ),
{
    pairs.sort()
}

/// A pair holds the position of a trail that the query keeps, and its
/// score.
pub open spec fn scored(p: (i128, usize), trails: Seq<TrailView>, q: TrailQuery) -> bool {
    &&& p.1 < trails.len()
    &&& keeps(trails[p.1 as int], q)
    &&& p.0 == query_score(trails[p.1 as int], q)
}

/// The positions of the trails that the query keeps, each with its score,
/// in the order of the list.
fn score_all(trails: &[Trail], query: &TrailQuery) -> (pairs: Vec<(i128, usize)>)
    ensures
        forall|k: int| 0 <= k < pairs@.len() ==> scored(#[trigger] pairs@[k], views(trails@), *query),
        forall|j: int|
            0 <= j < trails@.len() && keeps(#[trigger] views(trails@)[j], *query) ==> exists|
                k: int,
            |
                0 <= k < pairs@.len() && (#[trigger] pairs@[k]).1 == j,
        pairs@.no_duplicates(),
{
    let ghost ts = views(trails@);
    let range = derive_distance_range(query);
    let mut pairs: Vec<(i128, usize)> = Vec::new();
    let mut i: usize = 0;
    while i < trails.len()
        invariant
            i <= trails.len(),
            ts == views(trails@),
            range == distance_range(*query),
            forall|k: int| 0 <= k < pairs@.len() ==> scored(#[trigger] pairs@[k], ts, *query),
            forall|k: int| 0 <= k < pairs@.len() ==> (#[trigger] pairs@[k]).1 < i,
            forall|j: int|
                0 <= j < i && keeps(#[trigger] ts[j], *query) ==> exists|k: int|
                    0 <= k < pairs@.len() && (#[trigger] pairs@[k]).1 == j,
            pairs@.no_duplicates(),
        decreases trails.len() - i,
    {
        if passes(&trails[i], query) {
            let ghost before = pairs@;
            let s = score_trail(&trails[i], &range, query.effort.as_ref());
            pairs.push((s, i));
            proof {
                assert forall|j: int| 0 <= j < i + 1 && keeps(#[trigger] ts[j], *query) implies exists|
                    k: int,
                |
                    0 <= k < pairs@.len() && (#[trigger] pairs@[k]).1 == j by {
                    if j < i {
                        let k = choose|k: int| 0 <= k < before.len() && (#[trigger] before[k]).1 == j;
                        assert(pairs@[k] == before[k]);
                    } else {
                        assert(pairs@[before.len() as int].1 == j);
                    }
                }
                assert forall|a: int, b: int|
                    0 <= a < pairs@.len() && 0 <= b < pairs@.len() && a != b implies pairs@[a]
                    != pairs@[b] by {}
            }
        }
        i = i + 1;
    }
    pairs
}

/// The trails that pass the filters of the query, best first: the trails of
/// `trails` at the positions that the one ranking of `trails` under the
/// query lists, in its order.
pub fn filter_trails(trails: &[Trail], query: &TrailQuery) -> (r: Vec<Trail>)
    ensures
        exists|order: Seq<int>| #[trigger]
            is_ranking(order, views(trails@), *query) && views(r@) == picked(order, views(trails@)),
{
    let ghost ts = views(trails@);
    let mut pairs = score_all(trails, query);
    let ghost unsorted = pairs@;
    sort_pairs(&mut pairs);
    let ghost order = Seq::new(pairs@.len(), |k: int| pairs@[k].1 as int);
    proof {
        broadcast use vstd::seq_lib::group_to_multiset_ensures;

        assert forall|k: int| 0 <= k < pairs@.len() implies scored(#[trigger] pairs@[k], ts, *query) by {
            assert(unsorted.to_multiset().count(pairs@[k]) > 0);
        }
        unsorted.lemma_multiset_has_no_duplicates();
        pairs@.lemma_multiset_has_no_duplicates_conv();
        assert forall|j: int| 0 <= j < ts.len() && keeps(#[trigger] ts[j], *query) implies order.contains(
            j,
        ) by {
            let k0 = choose|k: int| 0 <= k < unsorted.len() && (#[trigger] unsorted[k]).1 == j;
            assert(pairs@.to_multiset().count(unsorted[k0]) > 0);
            let k = choose|k: int| 0 <= k < pairs@.len() && pairs@[k] == unsorted[k0];
            assert(order[k] == j);
        }
        assert forall|a: int, b: int| 0 <= a < b < order.len() implies precedes(
            ts,
            *query,
            #[trigger] order[a],
            #[trigger] order[b],
        ) by {}
        assert(is_ranking(order, ts, *query));
    }
    let mut out: Vec<Trail> = Vec::new();
    let mut k: usize = 0;
    while k < pairs.len()
        invariant
            k <= pairs.len(),
            ts == views(trails@),
            order == Seq::new(pairs@.len(), |k: int| pairs@[k].1 as int),
            forall|m: int| 0 <= m < pairs@.len() ==> (#[trigger] pairs@[m]).1 < trails@.len(),
            out@.len() == k,
            forall|m: int| 0 <= m < k ==> (#[trigger] out@[m])@ == ts[order[m]],
        decreases pairs.len() - k,
    {
        out.push(trails[pairs[k].1].clone());
        k = k + 1;
    }
    out
}

} // verus!
