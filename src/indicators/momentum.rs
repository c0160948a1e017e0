//! Momentum: the change of a value across a window.
use vstd::prelude::*;

use crate::indicators::averages::spec_window_count;
use crate::market_value::{obeys_algebra, total_algebra, MarketValue};
use vstd::std_specs::ops::SubSpec;

verus! {

/// The moving momentum: for each window of `interval` elements, its last
/// element minus its first.
pub open spec fn spec_moving_momentum<M: MarketValue>(s: Seq<M>, interval: nat) -> Seq<M> {
    Seq::new(spec_window_count(s, interval), |i: int| s[i + interval - 1].sub_spec(s[i]))
}

/// The change from `first` to `last`: `last - first`.
pub fn momentum<M: MarketValue>(first: M, last: M) -> (r: M)
    requires
        total_algebra::<M>(),
    ensures
        obeys_algebra::<M>() ==> r == last.sub_spec(first),
{
    last - first
}

/// The momentum of each window of `interval` elements, left to right: element
/// `i` is `instances[i + interval - 1] - instances[i]`. Empty when the interval
/// is zero or longer than the input.
pub fn moving_momentum<M: MarketValue>(instances: &[M], interval: usize) -> (r: Vec<M>)
    requires
        total_algebra::<M>(),
    ensures
        r@.len() == spec_window_count(instances@, interval as nat),
        obeys_algebra::<M>() ==> r@ == spec_moving_momentum(instances@, interval as nat),
        obeys_algebra::<M>() ==> forall|i: int|
            0 <= i < r@.len() ==> #[trigger] r@[i] == instances@[i + interval - 1].sub_spec(
                instances@[i],
            ),
{
    let mut momentum_vec: Vec<M> = Vec::new();
    if interval == 0 || instances.len() < interval {
        proof {
            assert(momentum_vec@ =~= spec_moving_momentum(instances@, interval as nat));
        }
        return momentum_vec;
    }
    let n = instances.len();
    let count = n - interval + 1;
    let mut i: usize = 0;
    while i < count
        invariant
            n == instances@.len(),
            count == spec_window_count(instances@, interval as nat),
            count + interval - 1 == n,
            0 < interval,
            i <= count,
            total_algebra::<M>(),
            momentum_vec@.len() == i,
            obeys_algebra::<M>() ==> forall|j: int|
                0 <= j < i ==> #[trigger] momentum_vec@[j] == instances@[j + interval
                    - 1].sub_spec(instances@[j]),
        decreases count - i,
    {
        let m = momentum(instances[i], instances[i + interval - 1]);
        momentum_vec.push(m);
        i = i + 1;
    }
    proof {
        if obeys_algebra::<M>() {
            assert(momentum_vec@ =~= spec_moving_momentum(instances@, interval as nat));
        }
    }
    momentum_vec
}

} // verus!
