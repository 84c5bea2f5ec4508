//! Running extrema of a sequence, started from a seed.

use vstd::prelude::*;

verus! {

/// The least of `seed` and all of `values`.
pub open spec fn least(seed: int, values: Seq<int>) -> int
    decreases values.len(),
{
    if values.len() == 0 {
        seed
    } else {
        let before = least(seed, values.drop_last());
        if values.last() < before {
            values.last()
        } else {
            before
        }
    }
}

/// The greatest of `seed` and all of `values`.
pub open spec fn greatest(seed: int, values: Seq<int>) -> int
    decreases values.len(),
{
    if values.len() == 0 {
        seed
    } else {
        let before = greatest(seed, values.drop_last());
        if values.last() > before {
            values.last()
        } else {
            before
        }
    }
}

/// `least` is the seed or one of the values, and neither is below it.
pub proof fn lemma_least(seed: int, values: Seq<int>)
    ensures
        least(seed, values) <= seed,
        forall|i: int| 0 <= i < values.len() ==> least(seed, values) <= #[trigger] values[i],
        least(seed, values) == seed || exists|i: int|
            0 <= i < values.len() && #[trigger] values[i] == least(seed, values),
    decreases values.len(),
{
    if values.len() > 0 {
        let front = values.drop_last();
        lemma_least(seed, front);
        assert forall|i: int| 0 <= i < values.len() implies least(seed, values)
            <= #[trigger] values[i] by {
            if i < front.len() {
                assert(front[i] == values[i]);
            }
        }
        if least(seed, values) != seed {
            if least(seed, values) == values.last() {
                assert(values[values.len() - 1] == least(seed, values));
            } else {
                let i = choose|i: int|
                    0 <= i < front.len() && #[trigger] front[i] == least(seed, front);
                assert(values[i] == least(seed, values));
            }
        }
    }
}

/// `greatest` is the seed or one of the values, and neither is above it.
pub proof fn lemma_greatest(seed: int, values: Seq<int>)
    ensures
        greatest(seed, values) >= seed,
        forall|i: int| 0 <= i < values.len() ==> greatest(seed, values) >= #[trigger] values[i],
        greatest(seed, values) == seed || exists|i: int|
            0 <= i < values.len() && #[trigger] values[i] == greatest(seed, values),
    decreases values.len(),
{
    if values.len() > 0 {
        let front = values.drop_last();
        lemma_greatest(seed, front);
        assert forall|i: int| 0 <= i < values.len() implies greatest(seed, values)
            >= #[trigger] values[i] by {
            if i < front.len() {
                assert(front[i] == values[i]);
            }
        }
        if greatest(seed, values) != seed {
            if greatest(seed, values) == values.last() {
                assert(values[values.len() - 1] == greatest(seed, values));
            } else {
                let i = choose|i: int|
                    0 <= i < front.len() && #[trigger] front[i] == greatest(seed, front);
                assert(values[i] == greatest(seed, values));
            }
        }
    }
}

} // verus!
