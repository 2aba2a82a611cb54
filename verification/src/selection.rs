//! Weighted random selection: turn per-track ratings into sampling weights
//! on an exponential scale, draw one track id with probability proportional
//! to its weight, and keep recently served ids from repeating.
//!
//! The scale factor is kept as an exact ratio, so the weight of a rating —
//! `scale^(rating - 1)`, rounded half away from zero — is computed exactly
//! in integers. The random draw itself goes through one trusted call into
//! the `rand` crate; everything around it (the weight transform, the replay
//! filter, the success and failure conditions) is verified.

use vstd::prelude::*;
use vstd::arithmetic::power::{pow, lemma_pow0, lemma_pow1, lemma_pow_adds, lemma_pow_increases, lemma_pow_positive};
use vstd::arithmetic::mul::lemma_mul_upper_bound;
use crate::replay::{ReplayWindow, spec_record};
use crate::vote::RATING_MAX;

verus! {

/// Why no track id could be served.
#[derive(Clone, Copy, PartialEq, Eq, Structural, Debug)]
pub enum SelectionError {
    /// No eligible track exists: the population is empty, or every entry's
    /// weight rounds to zero.
    EmptyPopulation,
    /// Eligible tracks exist, but every one of them was served too recently
    /// and still sits in the replay window.
    SelectionExhausted,
    /// The weights of the fresh candidates do not fit the sampler's
    /// accumulator.
    WeightOverflow,
}

/// Upper bound on the numerator and denominator of a scale factor.
pub const SCALE_LIMIT: u32 = 1_000_000;

/// The exponential scale factor of the rating-to-weight transform, as an
/// exact ratio `num / den`. The default factor of five halves is
/// `Scale::default_scale()`; a caller-supplied fractional factor is
/// converted to a ratio at the boundary.
pub struct Scale {
    num: u32,
    den: u32,
}

impl Scale {
    #[verifier::type_invariant]
    spec fn inv(self) -> bool {
        self.num <= SCALE_LIMIT && 1 <= self.den <= SCALE_LIMIT
    }

    /// The numerator of the factor.
    pub closed spec fn num(self) -> u32 {
        self.num
    }

    /// The denominator of the factor.
    pub closed spec fn den(self) -> u32 {
        self.den
    }

    /// Build a scale factor `num / den`; refused when the denominator is
    /// zero or either part is out of range.
    pub fn new(num: u32, den: u32) -> (r: Option<Scale>)
        ensures
            r is Some <==> (num <= SCALE_LIMIT && 1 <= den && den <= SCALE_LIMIT),
            r is Some ==> r->0.num() == num && r->0.den() == den,
    {
        if num <= SCALE_LIMIT && 1 <= den && den <= SCALE_LIMIT {
            Some(Scale { num, den })
        } else {
            None
        }
    }

    /// The default scale factor: five halves, so each rating step multiplies
    /// a track's weight by two and a half.
    pub fn default_scale() -> (r: Scale)
        ensures
            r.num() == 5,
            r.den() == 2,
    {
        Scale { num: 5, den: 2 }
    }
}

/// The sampling weight of a rating on scale `num / den`: the exact value of
/// `(num / den)^(rating - 1)`, rounded half away from zero, saturated to the
/// weight type's maximum.
pub open spec fn spec_weight(num: u32, den: u32, rating: u32) -> u32
    recommends
        1 <= rating,
        1 <= den,
{
    let k = (rating - 1) as nat;
    let rounded = (2 * pow(num as int, k) + pow(den as int, k)) / (2 * pow(den as int, k));
    if rounded > u32::MAX {
        u32::MAX
    } else {
        rounded as u32
    }
}

/// The numeric value of the scale-part bound raised to the top exponent of
/// the rating scale.
proof fn lemma_scale_limit_pow6()
    ensures
        pow(SCALE_LIMIT as int, 6) == 1000000000000000000000000000000000000int,
{
    reveal_with_fuel(pow, 7);
    let b = SCALE_LIMIT as int;
    assert(pow(b, 0) == 1);
    assert(pow(b, 1) == b * pow(b, 0));
    assert(pow(b, 2) == b * pow(b, 1));
    assert(pow(b, 3) == b * pow(b, 2));
    assert(pow(b, 4) == b * pow(b, 3));
    assert(pow(b, 5) == b * pow(b, 4));
    assert(pow(b, 6) == b * pow(b, 5));
}

/// `base^exp` for the small exponents of the rating scale.
fn pow_u128(base: u32, exp: u32) -> (r: u128)
    requires
        base <= SCALE_LIMIT,
        exp <= 6,
    ensures
        r == pow(base as int, exp as nat),
        r <= pow(SCALE_LIMIT as int, 6),
{
    proof {
        lemma_pow0(base as int);
        lemma_pow0(SCALE_LIMIT as int);
        lemma_pow_increases(SCALE_LIMIT as nat, 0, 6);
    }
    let mut r: u128 = 1;
    let mut i: u32 = 0;
    while i < exp
        invariant
            i <= exp,
            exp <= 6,
            base <= SCALE_LIMIT,
            r == pow(base as int, i as nat),
            r <= pow(SCALE_LIMIT as int, i as nat),
        decreases exp - i,
    {
        proof {
            lemma_mul_upper_bound(
                r as int,
                pow(SCALE_LIMIT as int, i as nat),
                base as int,
                SCALE_LIMIT as int,
            );
            lemma_pow1(SCALE_LIMIT as int);
            lemma_pow1(base as int);
            lemma_pow_adds(SCALE_LIMIT as int, i as nat, 1);
            lemma_pow_adds(base as int, i as nat, 1);
            lemma_pow_increases(SCALE_LIMIT as nat, (i + 1) as nat, 6);
            lemma_scale_limit_pow6();
        }
        r = r * (base as u128);
        i += 1;
    }
    proof {
        lemma_pow_increases(SCALE_LIMIT as nat, i as nat, 6);
    }
    r
}

/// Compute the sampling weight of one rating.
pub fn weight_of_rating(scale: &Scale, rating: u32) -> (w: u32)
    requires
        1 <= rating <= RATING_MAX,
    ensures
        w == spec_weight(scale.num(), scale.den(), rating),
{
    proof {
        use_type_invariant(scale);
        lemma_scale_limit_pow6();
        lemma_pow_positive(scale.den as int, (rating - 1) as nat);
    }
    let k = rating - 1;
    let p = pow_u128(scale.num, k);
    let q = pow_u128(scale.den, k);
    let rounded = (2 * p + q) / (2 * q);
    if rounded > u32::MAX as u128 {
        u32::MAX
    } else {
        rounded as u32
    }
}

/// The total of a list of weights.
pub open spec fn spec_weight_sum(weights: Seq<u32>) -> int
    decreases weights.len(),
{
    if weights.len() == 0 {
        0
    } else {
        spec_weight_sum(weights.drop_last()) + weights.last()
    }
}

/// The weight column of a `(weight, id)` population.
pub open spec fn spec_weights_of(pairs: Seq<(u32, i32)>) -> Seq<u32> {
    pairs.map_values(|p: (u32, i32)| p.0)
}

/// A prefix never outweighs the whole list.
pub proof fn lemma_weight_sum_prefix(weights: Seq<u32>, k: int)
    requires
        0 <= k <= weights.len(),
    ensures
        spec_weight_sum(weights.subrange(0, k)) <= spec_weight_sum(weights),
    decreases weights.len(),
{
    if k < weights.len() {
        assert(weights.subrange(0, k) =~= weights.drop_last().subrange(0, k));
        lemma_weight_sum_prefix(weights.drop_last(), k);
    } else {
        assert(weights.subrange(0, k) =~= weights);
    }
}

/// Relies on `rand::distributions::WeightedIndex`: `new` on a list of
/// unsigned weights fails exactly when the list is empty or its total is
/// zero, and `sample` returns the index of an entry drawn with probability
/// proportional to its weight — in particular an index in range whose weight
/// is nonzero. `new` sums the weights unchecked, hence the bound on their
/// total. Which index comes back is random; nothing else is assumed of it.
#[verifier::external_body]
fn draw_weighted_index(weights: &Vec<u32>) -> (r: Option<usize>)
    requires
        spec_weight_sum(weights@) <= u32::MAX,
    ensures
        match r {
            Some(i) => i < weights@.len() && weights@[i as int] > 0,
            None => forall|i: int| 0 <= i < weights@.len() ==> weights@[i] == 0,
        },
{
    match rand::distributions::WeightedIndex::new(weights.iter().copied()) {
        Ok(dist) => Some(rand::prelude::Distribution::sample(&dist, &mut rand::thread_rng())),
        Err(_) => None,
    }
}

/// Draw one id from a `(weight, id)` population, each entry drawn with
/// probability proportional to its weight. Entries of weight zero are never
/// drawn; a population that is empty or all of weight zero yields
/// `EmptyPopulation`.
pub fn rng(map: &[(u32, i32)]) -> (r: Result<i32, SelectionError>)
    requires
        spec_weight_sum(spec_weights_of(map@)) <= u32::MAX,
    ensures
        r matches Ok(id) ==> exists|i: int|
            0 <= i < map@.len() && (#[trigger] map@[i]).0 > 0 && map@[i].1 == id,
        r is Err <==> (map@.len() == 0 || forall|i: int|
            0 <= i < map@.len() ==> (#[trigger] map@[i]).0 == 0),
        r is Err ==> r->Err_0 == SelectionError::EmptyPopulation,
{
    let mut weights: Vec<u32> = Vec::new();
    let mut i: usize = 0;
    while i < map.len()
        invariant
            i <= map@.len(),
            weights@.len() == i,
            forall|k: int| 0 <= k < i ==> weights@[k] == (#[trigger] map@[k]).0,
        decreases map@.len() - i,
    {
        weights.push(map[i].0);
        i += 1;
    }
    proof {
        assert(weights@ =~= spec_weights_of(map@));
    }
    match draw_weighted_index(&weights) {
        Some(idx) => Ok(map[idx].1),
        None => Err(SelectionError::EmptyPopulation),
    }
}

/// Whether any entry of the population carries a positive weight on the
/// given scale.
pub open spec fn spec_has_positive(pairs: Seq<(u32, i32)>, num: u32, den: u32) -> bool {
    exists|i: int| 0 <= i < pairs.len() && spec_weight(num, den, (#[trigger] pairs[i]).0) > 0
}

/// Whether `entry` is one of the population's pairs, weighed: some pair
/// carries `entry`'s id and its rating weighs to `entry`'s weight.
pub open spec fn spec_comes_from(
    pairs: Seq<(u32, i32)>,
    num: u32,
    den: u32,
    entry: (u32, i32),
) -> bool {
    exists|j: int|
        0 <= j < pairs.len() && (#[trigger] pairs[j]).1 == entry.1 && spec_weight(
            num,
            den,
            pairs[j].0,
        ) == entry.0
}

/// The fresh candidates of one selection: the entries with a positive
/// weight whose id is not in the replay window, as `(weight, id)` pairs in
/// population order.
pub open spec fn spec_fresh_weighted(
    pairs: Seq<(u32, i32)>,
    num: u32,
    den: u32,
    window: Seq<i32>,
) -> Seq<(u32, i32)>
    decreases pairs.len(),
{
    if pairs.len() == 0 {
        Seq::empty()
    } else {
        let rest = spec_fresh_weighted(pairs.drop_last(), num, den, window);
        let p = pairs.last();
        let w = spec_weight(num, den, p.0);
        if w > 0 && !window.contains(p.1) {
            rest.push((w, p.1))
        } else {
            rest
        }
    }
}

/// Serve one track: weigh every `(rating, id)` pair on `scale`, set aside
/// the ids still in the replay window, draw one of the remaining candidates
/// with probability proportional to its weight, and record the drawn id in
/// the window. The window is consulted and updated under one caller-held
/// lock, so no id can be served twice while it sits in the window.
///
/// Filtering the windowed ids out before the draw yields the same
/// distribution as drawing from the whole population and redrawing on a
/// recently served id, and it always terminates: when every positive-weight
/// candidate is still in the window the pick reports `SelectionExhausted`
/// instead of redrawing forever.
pub fn pick_weighted(pairs: &Vec<(u32, i32)>, scale: &Scale, window: &mut ReplayWindow) -> (r:
    Result<i32, SelectionError>)
    requires
        forall|i: int| 0 <= i < pairs@.len() ==> 1 <= (#[trigger] pairs@[i]).0 <= RATING_MAX,
    ensures
        ({
            let num = scale.num();
            let den = scale.den();
            let fresh = spec_fresh_weighted(pairs@, num, den, old(window)@);
            &&& (r == Result::<i32, SelectionError>::Err(SelectionError::EmptyPopulation)
                <==> !spec_has_positive(pairs@, num, den))
            &&& (r == Result::<i32, SelectionError>::Err(SelectionError::SelectionExhausted)
                <==> spec_has_positive(pairs@, num, den) && fresh.len() == 0)
            &&& (r == Result::<i32, SelectionError>::Err(SelectionError::WeightOverflow)
                <==> fresh.len() > 0 && spec_weight_sum(spec_weights_of(fresh)) > u32::MAX)
            &&& (r is Ok <==> fresh.len() > 0 && spec_weight_sum(spec_weights_of(fresh))
                <= u32::MAX)
            &&& (r matches Ok(id) ==> exists|i: int|
                0 <= i < pairs@.len() && (#[trigger] pairs@[i]).1 == id && spec_weight(
                    num,
                    den,
                    pairs@[i].0,
                ) > 0)
            &&& (r matches Ok(id) ==> !old(window)@.contains(id) && final(window)@ == spec_record(
                old(window)@,
                id,
            ))
            &&& (r is Err ==> final(window)@ == old(window)@)
        }),
{
    let ghost num = scale.num();
    let ghost den = scale.den();
    let ghost win0 = window@;
    let mut fresh: Vec<(u32, i32)> = Vec::new();
    let mut any_positive = false;
    let mut i: usize = 0;
    while i < pairs.len()
        invariant
            i <= pairs@.len(),
            num == scale.num(),
            den == scale.den(),
            win0 == window@,
            win0 == old(window)@,
            forall|k: int| 0 <= k < pairs@.len() ==> 1 <= (#[trigger] pairs@[k]).0 <= RATING_MAX,
            fresh@ == spec_fresh_weighted(pairs@.subrange(0, i as int), num, den, win0),
            any_positive == spec_has_positive(pairs@.subrange(0, i as int), num, den),
            forall|k: int|
                0 <= k < fresh@.len() ==> (#[trigger] fresh@[k]).0 > 0 && !win0.contains(
                    fresh@[k].1,
                ),
            forall|k: int|
                0 <= k < fresh@.len() ==> spec_comes_from(pairs@, num, den, #[trigger] fresh@[k]),
        decreases pairs@.len() - i,
    {
        let ghost prev = pairs@.subrange(0, i as int);
        let w = weight_of_rating(scale, pairs[i].0);
        if w > 0 {
            any_positive = true;
            if !window.contains(pairs[i].1) {
                fresh.push((w, pairs[i].1));
            }
        }
        i += 1;
        proof {
            let cur = pairs@.subrange(0, i as int);
            assert(cur.drop_last() =~= prev);
            assert(cur.last() == pairs@[i - 1]);
            if !any_positive {
                assert(forall|k: int|
                    0 <= k < cur.len() ==> spec_weight(num, den, (#[trigger] cur[k]).0) == 0);
            }
        }
    }
    proof {
        assert(pairs@.subrange(0, pairs@.len() as int) =~= pairs@);
    }
    if !any_positive {
        return Err(SelectionError::EmptyPopulation);
    }
    if fresh.len() == 0 {
        return Err(SelectionError::SelectionExhausted);
    }
    let ghost proj = spec_weights_of(fresh@);
    let mut total: u64 = 0;
    let mut j: usize = 0;
    while j < fresh.len()
        invariant
            j <= fresh@.len(),
            proj == spec_weights_of(fresh@),
            total == spec_weight_sum(proj.subrange(0, j as int)),
            total <= u32::MAX,
            fresh@.len() > 0,
            spec_has_positive(pairs@, num, den),
            win0 == window@,
            win0 == old(window)@,
            num == scale.num(),
            den == scale.den(),
            fresh@ == spec_fresh_weighted(pairs@, num, den, win0),
        decreases fresh@.len() - j,
    {
        let ghost prevj = proj.subrange(0, j as int);
        total = total + fresh[j].0 as u64;
        j += 1;
        proof {
            let curj = proj.subrange(0, j as int);
            assert(curj.drop_last() =~= prevj);
            assert(curj.last() == proj[j - 1]);
        }
        if total > u32::MAX as u64 {
            proof {
                lemma_weight_sum_prefix(proj, j as int);
            }
            return Err(SelectionError::WeightOverflow);
        }
    }
    proof {
        assert(proj.subrange(0, proj.len() as int) =~= proj);
    }
    match rng(fresh.as_slice()) {
        Ok(id) => {
            window.record(id);
            Ok(id)
        },
        Err(_) => {
            proof {
                assert(fresh@[0].0 > 0);
                assert(false);
            }
            Err(SelectionError::SelectionExhausted)
        },
    }
}

} // verus!
