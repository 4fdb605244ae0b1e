//! Vision tracking: who sees whom, and the spotted / lost events between two polls of
//! the vision cones.

use vstd::prelude::*;
use std::collections::{HashMap, HashSet};
use vstd::std_specs::iter::IteratorSpec;

verus! {

broadcast use vstd::std_specs::hash::group_hash_axioms;

/// The entities an observer sees in the bodies overlapping its vision cone: each actor
/// other than the observer itself.
pub open spec fn visible_set(observer: u64, overlaps: Seq<Option<u64>>) -> Set<u64> {
    Set::new(|e: u64| e != observer && overlaps.contains(Some(e)))
}

/// Events produced by one poll of an observer's vision cone, each entity once (in no
/// particular order).
pub struct VisionEvents {
    /// Entities seen now and not at the previous poll.
    pub spotted: Vec<u64>,
    /// Entities seen at the previous poll and not now.
    pub lost: Vec<u64>,
}

/// Who sees whom: for each observer, the set of entities seen at its last poll.
pub struct VisionTracking {
    spotted: HashMap<u64, HashSet<u64>>,
}

impl View for VisionTracking {
    type V = Map<u64, Set<u64>>;

    closed spec fn view(&self) -> Map<u64, Set<u64>> {
        self.spotted@.map_values(|s: HashSet<u64>| s@)
    }
}

impl VisionTracking {
    /// The entities `observer` saw at its last poll (none if it was never polled).
    pub open spec fn seen_by(&self, observer: u64) -> Set<u64> {
        if self@.contains_key(observer) {
            self@[observer]
        } else {
            Set::empty()
        }
    }

    /// Nobody has seen anything yet.
    pub fn new() -> (tracking: Self)
        ensures
            tracking@ == Map::<u64, Set<u64>>::empty(),
    {
        let tracking = VisionTracking { spotted: HashMap::new() };
        assert(tracking@ =~= Map::<u64, Set<u64>>::empty());
        tracking
    }

    /// What `observer` saw at its last poll, each entity once.
    pub fn seen(&self, observer: u64) -> (seen: Vec<u64>)
        ensures
            seen@.no_duplicates(),
            seen@.to_set() == self.seen_by(observer),
    {
        let none: HashSet<u64> = HashSet::new();
        match self.spotted.get(&observer) {
            Some(set) => {
                let seen = set_difference(set, &none);
                assert(set@.difference(none@) =~= set@);
                seen
            },
            None => {
                let seen = set_difference(&none, &none);
                assert(none@.difference(none@) =~= Set::<u64>::empty());
                seen
            },
        }
    }

    /// Polls one observer's vision cone. The bodies that overlap the cone are given as
    /// their actor entities (`None` for a body that is no actor). The observer now sees
    /// every overlapping actor other than itself; the events report the entities that
    /// came into view and those that went out of view since its last poll. Other
    /// observers are left as they were.
    pub fn poll_vision_cone(&mut self, observer: u64, overlaps: &Vec<Option<u64>>) -> (events: VisionEvents)
        ensures
            final(self)@ == old(self)@.insert(observer, visible_set(observer, overlaps@)),
            events.spotted@.no_duplicates(),
            events.spotted@.to_set() == visible_set(observer, overlaps@).difference(
                old(self).seen_by(observer),
            ),
            events.lost@.no_duplicates(),
            events.lost@.to_set() == old(self).seen_by(observer).difference(
                visible_set(observer, overlaps@),
            ),
    {
        // Entities in view now.
        let mut current: HashSet<u64> = HashSet::new();
        let mut k: usize = 0;
        while k < overlaps.len()
            invariant
                0 <= k <= overlaps.len(),
                current@ == visible_set(observer, overlaps@.take(k as int)),
            decreases overlaps.len() - k,
        {
            let ghost before = overlaps@.take(k as int);
            let ghost next = overlaps@.take(k + 1);
            assert(next =~= before.push(overlaps@[k as int]));
            match overlaps[k] {
                Some(e) => {
                    if e != observer {
                        current.insert(e);
                    }
                },
                None => {},
            }
            assert(current@ =~= visible_set(observer, next)) by {
                assert forall|x: u64| #[trigger] next.contains(Some(x)) <==> (before.contains(Some(x))
                    || overlaps@[k as int] == Some(x)) by {
                    if next.contains(Some(x)) {
                        let i = choose|i: int| 0 <= i < next.len() && next[i] == Some(x);
                        if i < k {
                            assert(before[i] == Some(x));
                        }
                    }
                    if before.contains(Some(x)) {
                        let i = choose|i: int| 0 <= i < before.len() && before[i] == Some(x);
                        assert(next[i] == Some(x));
                    }
                    if overlaps@[k as int] == Some(x) {
                        assert(next[k as int] == Some(x));
                    }
                }
            }
            k = k + 1;
        }
        assert(overlaps@.take(overlaps.len() as int) =~= overlaps@);
        let none: HashSet<u64> = HashSet::new();
        let previous: &HashSet<u64> = match self.spotted.get(&observer) {
            Some(set) => set,
            None => &none,
        };
        assert(previous@ == old(self).seen_by(observer));
        let spotted = set_difference(&current, previous);
        let lost = set_difference(previous, &current);
        let ghost old_view = self@;
        self.spotted.insert(observer, current);
        assert(self@ =~= old_view.insert(observer, visible_set(observer, overlaps@)));
        VisionEvents { spotted, lost }
    }
}

/// The elements of `a` missing from `b`, each once.
fn set_difference(a: &HashSet<u64>, b: &HashSet<u64>) -> (out: Vec<u64>)
    ensures
        out@.no_duplicates(),
        out@.to_set() == a@.difference(b@),
{
    let mut out: Vec<u64> = Vec::new();
    proof {
        assert(vstd::std_specs::hash::obeys_key_model::<u64>());
    }
    let ghost keys = vstd::std_specs::hash::spec_hash_keys_iter(a).remaining();
    proof {
        assert(keys.unref().to_set() == a@);
    }
    for x in it: a.iter()
        invariant
            it.seq() == keys,
            keys.no_duplicates(),
            keys.unref().to_set() == a@,
            0 <= it.index() <= keys.len(),
            out@.no_duplicates(),
            forall|e: u64| #[trigger] out@.contains(e) <==> (!b@.contains(e) && exists|i: int|
                0 <= i < it.index() && *keys[i] == e),
    {
        assert(*x == *keys[it.index()]);
        if !b.contains(x) {
            assert(!out@.contains(*x)) by {
                if out@.contains(*x) {
                    let i = choose|i: int| 0 <= i < it.index() && *keys[i] == *x;
                    assert(keys[i] == keys[it.index()]);
                }
            }
            let ghost before = out@;
            out.push(*x);
            assert(out@.drop_last() == before);
            assert forall|e: u64| #[trigger] out@.contains(e) <==> (!b@.contains(e) && exists|i: int|
                0 <= i < it.index() + 1 && *keys[i] == e) by {
                if e == *x {
                    assert(out@[out@.len() - 1] == e);
                    assert(*keys[it.index()] == e);
                } else {
                    if out@.contains(e) {
                        let j = choose|j: int| 0 <= j < out@.len() && out@[j] == e;
                        assert(before[j] == e);
                        assert(before.contains(e));
                    }
                    if !b@.contains(e) && exists|i: int| 0 <= i < it.index() + 1 && *keys[i] == e {
                        let i = choose|i: int| 0 <= i < it.index() + 1 && *keys[i] == e;
                        assert(i < it.index());
                        assert(before.contains(e));
                        let j = choose|j: int| 0 <= j < before.len() && before[j] == e;
                        assert(out@[j] == e);
                    }
                }
            }
        }
    }
    let ghost n = keys.len();
    assert forall|e: u64| #[trigger] out@.to_set().contains(e) <==> a@.difference(b@).contains(e) by {
        let u = keys.unref();
        assert(u.len() == n);
        if a@.contains(e) {
            assert(u.to_set().contains(e));
            assert(u.contains(e));
            let i = choose|i: int| 0 <= i < u.len() && u[i] == e;
            assert(*keys[i] == e);
        }
        if out@.contains(e) {
            let i = choose|i: int| 0 <= i < n && *keys[i] == e;
            assert(u[i] == e);
            assert(u.contains(e));
            assert(u.to_set().contains(e));
        }
    }
    out
}


/// Polling a cone twice with the same overlapping bodies reports nothing the second
/// time, and no entity is reported both spotted and lost.
pub proof fn lemma_poll_is_stable(observer: u64, overlaps: Seq<Option<u64>>, previous: Set<u64>)
    ensures
        visible_set(observer, overlaps).difference(visible_set(observer, overlaps)).is_empty(),
        visible_set(observer, overlaps).difference(previous).disjoint(
            previous.difference(visible_set(observer, overlaps)),
        ),
{
    let v = visible_set(observer, overlaps);
    assert(v.difference(v) =~= Set::<u64>::empty());
}

} // verus!
