//! Choosing the closest of several candidates.
//!
//! Distances are compared through ordering keys: for non-negative distances the key is
//! the distance's IEEE bit pattern, whose integer order is the order of the distances.
//! Among candidates at the same distance the first one wins, as with a strict `<`
//! comparison while scanning.

use vstd::prelude::*;

verus! {

/// Index of the first eligible candidate with the smallest key, if any candidate is eligible.
pub open spec fn closest_spec(eligible: Seq<bool>, keys: Seq<u32>) -> Option<int>
    decreases eligible.len(),
{
    if eligible.len() == 0 {
        None
    } else {
        let n = eligible.len() - 1;
        let previous = closest_spec(eligible.drop_last(), keys);
        if eligible[n] && (previous is None || keys[n] < keys[previous->0]) {
            Some(n)
        } else {
            previous
        }
    }
}

/// The closest candidate is eligible, no eligible candidate has a smaller key, every
/// earlier eligible candidate has a strictly larger key, and there is none only when no
/// candidate is eligible.
pub proof fn lemma_closest_is_first_minimum(eligible: Seq<bool>, keys: Seq<u32>)
    requires
        keys.len() >= eligible.len(),
    ensures
        match closest_spec(eligible, keys) {
            Some(i) => {
                &&& 0 <= i < eligible.len()
                &&& eligible[i]
                &&& forall|j: int|
                    0 <= j < eligible.len() && #[trigger] eligible[j] ==> keys[i] <= keys[j]
                &&& forall|j: int| 0 <= j < i && #[trigger] eligible[j] ==> keys[i] < keys[j]
            },
            None => forall|j: int| 0 <= j < eligible.len() ==> !#[trigger] eligible[j],
        },
    decreases eligible.len(),
{
    if eligible.len() > 0 {
        let init = eligible.drop_last();
        lemma_closest_is_first_minimum(init, keys);
        assert forall|j: int| 0 <= j < init.len() implies init[j] == eligible[j] by {}
    }
}

/// Index of the first eligible candidate with the smallest key.
pub fn closest_eligible(eligible: &Vec<bool>, keys: &Vec<u32>) -> (index: Option<usize>)
    requires
        keys.len() >= eligible.len(),
    ensures
        match index {
            Some(i) => closest_spec(eligible@, keys@) == Some(i as int),
            None => closest_spec(eligible@, keys@) is None,
        },
{
    let mut best: Option<usize> = None;
    let mut k: usize = 0;
    while k < eligible.len()
        invariant
            0 <= k <= eligible.len(),
            keys.len() >= eligible.len(),
            match best {
                Some(i) => closest_spec(eligible@.take(k as int), keys@) == Some(i as int),
                None => closest_spec(eligible@.take(k as int), keys@) is None,
            },
        decreases eligible.len() - k,
    {
        let ghost prefix = eligible@.take(k as int);
        let ghost next = eligible@.take(k + 1);
        assert(next.drop_last() =~= prefix);
        proof {
            lemma_closest_is_first_minimum(prefix, keys@);
        }
        if eligible[k] {
            match best {
                None => {
                    best = Some(k);
                },
                Some(i) => {
                    if keys[k] < keys[i] {
                        best = Some(k);
                    }
                },
            }
        }
        k = k + 1;
    }
    assert(eligible@.take(eligible.len() as int) =~= eligible@);
    best
}

} // verus!
