//! Moving averages over ordered sequences of values.
//!
//! Every function is a batch transform: it reads a slice and returns a new
//! sequence. An interval of zero, or one longer than the input, gives an empty
//! result rather than an error.
use vstd::prelude::*;

use crate::market_value::{
    count_scalar, obeys_algebra, obeys_scalar, spec_count, spec_scalar, spec_zero, total_algebra,
    total_scalar, zero, MarketValue, Scalar,
};
use vstd::std_specs::ops::{AddSpec, DivSpec, MulSpec, SubSpec};

verus! {

/// The values of `s` added up from left to right, starting with the first
/// (`((s[0] + s[1]) + s[2]) + ...`). Only meaningful for a non-empty `s`.
pub open spec fn spec_sum<M: MarketValue>(s: Seq<M>) -> M
    decreases s.len(),
{
    if s.len() <= 1 {
        s[0]
    } else {
        spec_sum(s.drop_last()).add_spec(s.last())
    }
}

/// The arithmetic mean of `s`: zero when `s` is empty, the element itself when
/// it has one, else the sum divided by the count.
pub open spec fn spec_simple_average<M: MarketValue>(s: Seq<M>) -> M {
    if s.len() == 0 {
        spec_zero::<M>()
    } else if s.len() == 1 {
        s[0]
    } else {
        spec_sum(s).div_spec(spec_count::<M::Scalar>(s.len()))
    }
}

/// The window of `interval` elements of `s` that starts at `start`.
pub open spec fn spec_window<T>(s: Seq<T>, start: int, interval: nat) -> Seq<T> {
    s.subrange(start, start + interval)
}

/// How many windows of `interval` elements `s` holds: none when the interval
/// is zero or longer than `s`.
pub open spec fn spec_window_count<T>(s: Seq<T>, interval: nat) -> nat {
    if interval == 0 || s.len() < interval {
        0
    } else {
        (s.len() - interval + 1) as nat
    }
}

/// The simple moving average: the mean of each window, left to right.
pub open spec fn spec_simple_moving_average<M: MarketValue>(s: Seq<M>, interval: nat) -> Seq<M> {
    Seq::new(
        spec_window_count(s, interval),
        |i: int| spec_simple_average(spec_window(s, i, interval)),
    )
}

/// The multiplier of the exponential average: `smoothing / (interval + 1)`.
pub open spec fn spec_exponential_average_multiplier<S: Scalar>(smoothing: S, interval: nat) -> S {
    smoothing.div_spec(spec_count::<S>(interval).add_spec(spec_scalar::<S>(1)))
}

/// One step of the exponential average: `(current - previous) * multiplier + previous`.
pub open spec fn spec_exponential_average<M: MarketValue>(
    current: M,
    previous: M,
    multiplier: M::Scalar,
) -> M {
    current.sub_spec(previous).mul_spec(multiplier).add_spec(previous)
}

/// The exponential average at `s[interval + j]`: the recurrence seeded with the
/// mean of the first `interval` elements and applied to `s[interval]`, ...,
/// `s[interval + j]` in turn.
pub open spec fn spec_exponential_average_at<M: MarketValue>(
    s: Seq<M>,
    interval: nat,
    multiplier: M::Scalar,
    j: nat,
) -> M
    decreases j,
{
    let previous = if j == 0 {
        spec_simple_average(s.subrange(0, interval as int))
    } else {
        spec_exponential_average_at(s, interval, multiplier, (j - 1) as nat)
    };
    spec_exponential_average(s[(interval + j) as int], previous, multiplier)
}

/// The exponential moving average: one value for each element after the seed
/// window, none when the interval is zero or the input is not longer than it.
pub open spec fn spec_exponential_moving_average<M: MarketValue>(
    s: Seq<M>,
    smoothing: M::Scalar,
    interval: nat,
) -> Seq<M> {
    if interval == 0 || s.len() <= interval {
        Seq::empty()
    } else {
        Seq::new(
            (s.len() - interval) as nat,
            |j: int|
                spec_exponential_average_at(
                    s,
                    interval,
                    spec_exponential_average_multiplier(smoothing, interval),
                    j as nat,
                ),
        )
    }
}

/// The triangular moving average: the simple moving average of the simple
/// moving average, written over the front of the first pass (whose remaining
/// elements stay), with the last element dropped unless the interval is one.
pub open spec fn spec_triangular_moving_average<M: MarketValue>(s: Seq<M>, interval: nat) -> Seq<M> {
    let first = spec_simple_moving_average(s, interval);
    let second = spec_simple_moving_average(first, interval);
    let combined = second + first.subrange(second.len() as int, first.len() as int);
    if first.len() == 0 || interval == 1 {
        combined
    } else {
        combined.drop_last()
    }
}

/// The weighted sum `s[0] * w[0] + s[1] * w[1] + ...`, added from left to
/// right starting at zero.
pub open spec fn spec_weighted_sum<M: MarketValue>(s: Seq<M>, w: Seq<M::Scalar>) -> M
    decreases s.len(),
{
    if s.len() == 0 {
        spec_zero::<M>()
    } else {
        spec_weighted_sum(s.drop_last(), w).add_spec(s.last().mul_spec(w[s.len() - 1]))
    }
}

/// The weighted average: zero when `s` is empty, `s[0] * w[0]` (not divided)
/// when it has one element, else the weighted sum divided by the count.
pub open spec fn spec_weighted_average<M: MarketValue>(s: Seq<M>, w: Seq<M::Scalar>) -> M {
    if s.len() == 0 {
        spec_zero::<M>()
    } else if s.len() == 1 {
        s[0].mul_spec(w[0])
    } else {
        spec_weighted_sum(s, w).div_spec(spec_count::<M::Scalar>(s.len()))
    }
}

/// The weighted moving average: the weighted average of each window, the
/// weights indexed from the start of the window.
pub open spec fn spec_weighted_moving_average<M: MarketValue>(
    s: Seq<M>,
    w: Seq<M::Scalar>,
    interval: nat,
) -> Seq<M> {
    Seq::new(
        spec_window_count(s, interval),
        |i: int| spec_weighted_average(spec_window(s, i, interval), w),
    )
}

/// `w` holds, at each index `i`, a value that `weight` may return for `i`.
pub open spec fn spec_weights_of<S, F: Fn(usize) -> S>(weight: F, w: Seq<S>) -> bool {
    forall|i: int| 0 <= i < w.len() ==> #[trigger] weight.ensures((i as usize,), w[i])
}

/// With an interval of one, the triangular moving average is the simple moving
/// average applied twice, with no trailing element dropped; a window of one
/// averages to its element, so all three equal the input.
pub proof fn lemma_triangular_unit_interval<M: MarketValue>(s: Seq<M>)
    ensures
        spec_triangular_moving_average(s, 1) == spec_simple_moving_average(
            spec_simple_moving_average(s, 1),
            1,
        ),
        spec_simple_moving_average(s, 1) == s,
        spec_triangular_moving_average(s, 1) == s,
{
    let first = spec_simple_moving_average(s, 1);
    assert forall|i: int| 0 <= i < s.len() implies #[trigger] first[i] == s[i] by {
        assert(spec_window(s, i, 1).len() == 1);
    }
    assert(first =~= s);
    let second = spec_simple_moving_average(first, 1);
    assert forall|i: int| 0 <= i < first.len() implies #[trigger] second[i] == first[i] by {
        assert(spec_window(first, i, 1).len() == 1);
    }
    assert(second =~= first);
    assert(second + first.subrange(second.len() as int, first.len() as int) =~= second);
}

/// The arithmetic mean of `instances`. An empty slice gives zero and a single
/// element is returned unchanged; otherwise the elements are added from left
/// to right and the sum is divided by their count.
pub fn simple_average<M: MarketValue>(instances: &[M]) -> (r: M)
    requires
        total_algebra::<M>(),
    ensures
        obeys_algebra::<M>() ==> r == spec_simple_average(instances@),
        instances@.len() == 1 ==> r == instances@[0],
{
    let n = instances.len();
    if n == 0 {
        return zero();
    } else if n == 1 {
        return instances[0];
    }
    let mut sum = instances[0];
    let mut i: usize = 1;
    while i < n
        invariant
            n == instances@.len(),
            1 <= i <= n,
            total_algebra::<M>(),
            obeys_algebra::<M>() ==> sum == spec_sum(instances@.subrange(0, i as int)),
        decreases n - i,
    {
        proof {
            assert(instances@.subrange(0, i + 1).drop_last() =~= instances@.subrange(0, i as int));
        }
        sum = sum + instances[i];
        i = i + 1;
    }
    proof {
        assert(instances@.subrange(0, n as int) =~= instances@);
    }
    sum / count_scalar(n)
}

/// The mean of each window of `interval` consecutive elements, left to right:
/// `len - interval + 1` values, or none when the interval is zero or longer
/// than the input.
pub fn simple_moving_average<M: MarketValue>(instances: &[M], interval: usize) -> (r: Vec<M>)
    requires
        total_algebra::<M>(),
    ensures
        r@.len() == spec_window_count(instances@, interval as nat),
        0 < interval <= instances@.len() ==> r@.len() == instances@.len() - interval + 1,
        interval == 0 || instances@.len() < interval ==> r@.len() == 0,
        interval == 1 ==> r@ == instances@,
        obeys_algebra::<M>() ==> r@ == spec_simple_moving_average(instances@, interval as nat),
{
    let mut averages: Vec<M> = Vec::new();
    if interval == 0 || instances.len() < interval {
        proof {
            assert(averages@ =~= spec_simple_moving_average(instances@, interval as nat));
        }
        return averages;
    }
    let n = instances.len();
    let count = n - interval + 1;
    let mut i: usize = 0;
    while i < count
        invariant
            n == instances@.len(),
            count == spec_window_count(instances@, interval as nat),
            count + interval - 1 == instances@.len(),
            0 < interval,
            i <= count,
            total_algebra::<M>(),
            averages@.len() == i,
            interval == 1 ==> forall|j: int| 0 <= j < i ==> #[trigger] averages@[j] == instances@[j],
            obeys_algebra::<M>() ==> forall|j: int|
                0 <= j < i ==> #[trigger] averages@[j] == spec_simple_average(
                    spec_window(instances@, j, interval as nat),
                ),
        decreases count - i,
    {
        let average = simple_average(&instances[i..i + interval]);
        averages.push(average);
        i = i + 1;
    }
    proof {
        if interval == 1 {
            assert(averages@ =~= instances@);
        }
        if obeys_algebra::<M>() {
            assert(averages@ =~= spec_simple_moving_average(instances@, interval as nat));
        }
    }
    averages
}

/// The multiplier of the exponential average: `smoothing / (interval + 1)`.
pub fn exponential_average_multiplier<S: Scalar>(smoothing: S, interval: usize) -> (r: S)
    requires
        total_scalar::<S>(),
    ensures
        obeys_scalar::<S>() ==> r == spec_exponential_average_multiplier(smoothing, interval as nat),
{
    let denominator = count_scalar::<S>(interval) + <S as From<u32>>::from(1u32);
    smoothing / denominator
}

/// One step of the exponential average: `(instance - previous_ea) * multiplier + previous_ea`.
pub fn exponential_average<M: MarketValue>(instance: M, previous_ea: M, multiplier: M::Scalar) -> (r: M)
    requires
        total_algebra::<M>(),
    ensures
        obeys_algebra::<M>() ==> r == spec_exponential_average(instance, previous_ea, multiplier),
{
    (instance - previous_ea) * multiplier + previous_ea
}

/// The exponential moving average: seeded with the mean of the first
/// `interval` elements, then one step of the recurrence per remaining element,
/// each emitted. Gives `len - interval` values, or none unless
/// `len > interval > 0`.
pub fn exponential_moving_average<M: MarketValue>(
    instances: &[M],
    smoothing: M::Scalar,
    interval: usize,
) -> (r: Vec<M>)
    requires
        total_algebra::<M>(),
    ensures
        0 < interval < instances@.len() ==> r@.len() == instances@.len() - interval,
        interval == 0 || instances@.len() <= interval ==> r@.len() == 0,
        obeys_algebra::<M>() ==> r@ == spec_exponential_moving_average(
            instances@,
            smoothing,
            interval as nat,
        ),
        obeys_algebra::<M>() && 0 < interval < instances@.len() ==> r@[0]
            == spec_exponential_average(
            instances@[interval as int],
            spec_simple_average(instances@.subrange(0, interval as int)),
            spec_exponential_average_multiplier(smoothing, interval as nat),
        ),
{
    let mut averages: Vec<M> = Vec::new();
    if interval == 0 || instances.len() <= interval {
        proof {
            assert(averages@ =~= spec_exponential_moving_average(
                instances@,
                smoothing,
                interval as nat,
            ));
        }
        return averages;
    }
    let n = instances.len();
    let mut previous = simple_average(&instances[0..interval]);
    let multiplier = exponential_average_multiplier(smoothing, interval);
    let mut i: usize = interval;
    while i < n
        invariant
            n == instances@.len(),
            0 < interval <= i <= n,
            total_algebra::<M>(),
            averages@.len() == i - interval,
            obeys_algebra::<M>() ==> multiplier == spec_exponential_average_multiplier(
                smoothing,
                interval as nat,
            ),
            obeys_algebra::<M>() && i == interval ==> previous == spec_simple_average(
                instances@.subrange(0, interval as int),
            ),
            obeys_algebra::<M>() && i > interval ==> previous == spec_exponential_average_at(
                instances@,
                interval as nat,
                multiplier,
                (i - interval - 1) as nat,
            ),
            obeys_algebra::<M>() ==> forall|j: int|
                0 <= j < averages@.len() ==> #[trigger] averages@[j]
                    == spec_exponential_average_at(instances@, interval as nat, multiplier, j as nat),
        decreases n - i,
    {
        let average = exponential_average(instances[i], previous, multiplier);
        previous = average;
        averages.push(average);
        i = i + 1;
    }
    proof {
        if obeys_algebra::<M>() {
            assert(averages@ =~= spec_exponential_moving_average(
                instances@,
                smoothing,
                interval as nat,
            ));
        }
    }
    averages
}

/// The triangular moving average: a simple moving average of `instances`, then
/// a second one over that result with the same interval, written over its
/// front in place; the last element is then dropped unless the interval is
/// one. Empty when the interval is zero or longer than the input.
pub fn triangular_moving_average<M: MarketValue>(instances: &[M], interval: usize) -> (r: Vec<M>)
    requires
        total_algebra::<M>(),
    ensures
        interval == 0 || instances@.len() < interval ==> r@.len() == 0,
        0 < interval <= instances@.len() && interval != 1 ==> r@.len() == instances@.len() - interval,
        interval == 1 ==> r@ == instances@,
        obeys_algebra::<M>() ==> r@ == spec_triangular_moving_average(instances@, interval as nat),
{
    let mut averages = simple_moving_average(instances, interval);
    let ghost first = averages@;
    let len = averages.len();
    if len < interval || interval == 0 {
        proof {
            assert(spec_simple_moving_average(first, interval as nat) =~= Seq::<M>::empty());
            assert(first.subrange(0, first.len() as int) =~= first);
        }
        if len > 0 && interval != 1 {
            averages.pop();
            proof {
                if obeys_algebra::<M>() {
                    assert(averages@ =~= spec_triangular_moving_average(
                        instances@,
                        interval as nat,
                    ));
                }
            }
        }
        return averages;
    }
    let count = len - interval + 1;
    let mut i: usize = 0;
    while i < count
        invariant
            0 < interval,
            count + interval - 1 == len,
            obeys_algebra::<M>() ==> first == spec_simple_moving_average(
                instances@,
                interval as nat,
            ),
            interval == 1 ==> first == instances@,
            len == first.len(),
            total_algebra::<M>(),
            averages@.len() == len,
            i <= count,
            interval == 1 ==> forall|j: int| 0 <= j < i ==> #[trigger] averages@[j] == first[j],
            obeys_algebra::<M>() ==> forall|j: int|
                0 <= j < i ==> #[trigger] averages@[j] == spec_simple_average(
                    spec_window(first, j, interval as nat),
                ),
            forall|j: int| i <= j < len ==> #[trigger] averages@[j] == first[j],
        decreases count - i,
    {
        proof {
            assert(averages@.subrange(i as int, i + interval) =~= spec_window(
                first,
                i as int,
                interval as nat,
            ));
        }
        let average = simple_average(&averages.as_slice()[i..i + interval]);
        averages.set(i, average);
        i = i + 1;
    }
    proof {
        if interval == 1 {
            assert(averages@ =~= instances@);
        }
        if obeys_algebra::<M>() {
            let second = spec_simple_moving_average(first, interval as nat);
            assert(averages@ =~= second + first.subrange(second.len() as int, first.len() as int));
        }
    }
    if interval != 1 {
        averages.pop();
    }
    averages
}

/// The weighted average of `instances` with the weight of each index given:
/// `instances[0] * weights[0]` (not divided) for one element, zero for none,
/// else `(instances[0] * weights[0] + ...) / len`.
pub fn weighted_average_of<M: MarketValue>(instances: &[M], weights: &[M::Scalar]) -> (r: M)
    requires
        total_algebra::<M>(),
        weights@.len() >= instances@.len(),
    ensures
        obeys_algebra::<M>() ==> r == spec_weighted_average(instances@, weights@),
{
    let n = instances.len();
    if n == 0 {
        return zero();
    } else if n == 1 {
        return instances[0] * weights[0];
    }
    let mut sum: M = zero();
    let mut i: usize = 0;
    while i < n
        invariant
            n == instances@.len(),
            weights@.len() >= n,
            i <= n,
            total_algebra::<M>(),
            obeys_algebra::<M>() ==> sum == spec_weighted_sum(
                instances@.subrange(0, i as int),
                weights@,
            ),
        decreases n - i,
    {
        proof {
            assert(instances@.subrange(0, i + 1).drop_last() =~= instances@.subrange(0, i as int));
        }
        let term = instances[i] * weights[i];
        sum = sum + term;
        i = i + 1;
    }
    proof {
        assert(instances@.subrange(0, n as int) =~= instances@);
    }
    sum / count_scalar(n)
}

/// The weights `weight(0)`, ..., `weight(count - 1)`.
fn collect_weights<S, F: Fn(usize) -> S>(weight: &F, count: usize) -> (r: Vec<S>)
    requires
        forall|i: usize| i < count ==> #[trigger] weight.requires((i,)),
    ensures
        r@.len() == count,
        spec_weights_of(*weight, r@),
{
    let mut weights: Vec<S> = Vec::new();
    let mut i: usize = 0;
    while i < count
        invariant
            i <= count,
            weights@.len() == i,
            forall|i: usize| i < count ==> #[trigger] weight.requires((i,)),
            spec_weights_of(*weight, weights@),
        decreases count - i,
    {
        let w = weight(i);
        let ghost before = weights@;
        weights.push(w);
        proof {
            assert forall|j: int| 0 <= j < weights@.len() implies #[trigger] weight.ensures(
                (j as usize,),
                weights@[j],
            ) by {
                if j < i {
                    assert(weights@[j] == before[j]);
                }
            }
        }
        i = i + 1;
    }
    weights
}

/// The weighted average of `instances`, the weight of the element at index
/// `i` being `weight(i)`: `instances[0] * weight(0)` (not divided) for one
/// element, zero for none, else `(instances[0] * weight(0) + ...) / len`.
pub fn weighted_average<M: MarketValue, F: Fn(usize) -> M::Scalar>(instances: &[M], weight: F) -> (r: M)
    requires
        total_algebra::<M>(),
        forall|i: usize| i < instances@.len() ==> #[trigger] weight.requires((i,)),
    ensures
        obeys_algebra::<M>() ==> exists|w: Seq<M::Scalar>|
            w.len() == instances@.len() && spec_weights_of(weight, w) && r
                == spec_weighted_average(instances@, w),
        obeys_algebra::<M>() && instances@.len() == 1 ==> exists|w0: M::Scalar|
            weight.ensures((0usize,), w0) && r == instances@[0].mul_spec(w0),
{
    let weights = collect_weights(&weight, instances.len());
    let r = weighted_average_of(instances, weights.as_slice());
    proof {
        if instances@.len() == 1 {
            let first: int = 0;
            assert(weight.ensures((first as usize,), weights@[first]));
        }
    }
    r
}

/// The weighted average of each window of `interval` elements, left to right,
/// the weights indexed from the start of the window (`weight(0)` for its first
/// element). Empty when the interval is zero or longer than the input.
pub fn weighted_moving_average<M: MarketValue, F: Fn(usize) -> M::Scalar>(
    instances: &[M],
    weight: F,
    interval: usize,
) -> (r: Vec<M>)
    requires
        total_algebra::<M>(),
        forall|i: usize| i < interval ==> #[trigger] weight.requires((i,)),
    ensures
        r@.len() == spec_window_count(instances@, interval as nat),
        obeys_algebra::<M>() ==> exists|w: Seq<M::Scalar>|
            w.len() == interval && spec_weights_of(weight, w) && r@
                == spec_weighted_moving_average(instances@, w, interval as nat),
{
    let mut averages: Vec<M> = Vec::new();
    let weights = collect_weights(&weight, interval);
    if interval == 0 || instances.len() < interval {
        proof {
            assert(averages@ =~= spec_weighted_moving_average(
                instances@,
                weights@,
                interval as nat,
            ));
        }
        return averages;
    }
    let n = instances.len();
    let count = n - interval + 1;
    let mut i: usize = 0;
    while i < count
        invariant
            n == instances@.len(),
            count == spec_window_count(instances@, interval as nat),
            count + interval - 1 == n,
            0 < interval,
            weights@.len() == interval,
            i <= count,
            total_algebra::<M>(),
            averages@.len() == i,
            obeys_algebra::<M>() ==> forall|j: int|
                0 <= j < i ==> #[trigger] averages@[j] == spec_weighted_average(
                    spec_window(instances@, j, interval as nat),
                    weights@,
                ),
        decreases count - i,
    {
        let average = weighted_average_of(&instances[i..i + interval], weights.as_slice());
        averages.push(average);
        i = i + 1;
    }
    proof {
        if obeys_algebra::<M>() {
            assert(averages@ =~= spec_weighted_moving_average(instances@, weights@, interval as nat));
        }
    }
    averages
}

} // verus!
