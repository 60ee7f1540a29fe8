//! Press-repeat counting, one counter per virtual key.
use std::collections::HashMap;

use vstd::prelude::*;

verus! {

broadcast use vstd::std_specs::hash::group_hash_axioms;

/// The counter of key `vk` in `counts`: 0 for a key that is not held.
pub open spec fn count_of(counts: Map<u32, usize>, vk: u32) -> usize {
    if counts.contains_key(vk) {
        counts[vk]
    } else {
        0
    }
}

/// A counter after one more press; it stays at `usize::MAX` once there.
pub open spec fn bumped(n: usize) -> usize {
    if n < usize::MAX {
        (n + 1) as usize
    } else {
        n
    }
}

/// The counters after a press of `vk`.
pub open spec fn after_press(counts: Map<u32, usize>, vk: u32) -> Map<u32, usize> {
    counts.insert(vk, bumped(count_of(counts, vk)))
}

/// The counters after a release of `vk`.
pub open spec fn after_release(counts: Map<u32, usize>, vk: u32) -> Map<u32, usize> {
    counts.remove(vk)
}

/// The counters after `n` presses of `vk` in a row.
pub open spec fn after_presses(counts: Map<u32, usize>, vk: u32, n: nat) -> Map<u32, usize>
    decreases n,
{
    if n == 0 {
        counts
    } else {
        after_press(after_presses(counts, vk, (n - 1) as nat), vk)
    }
}

/// Counts, for each key, the presses since its last release.
pub struct RepeatTracker {
    counts: HashMap<u32, usize>,
}

impl View for RepeatTracker {
    type V = Map<u32, usize>;

    closed spec fn view(&self) -> Map<u32, usize> {
        self.counts@
    }
}

impl RepeatTracker {
    /// A tracker in which no key is held.
    pub fn new() -> (r: RepeatTracker)
        ensures
            r@ == Map::<u32, usize>::empty(),
    {
        RepeatTracker { counts: HashMap::new() }
    }

    /// The number of presses of `vk` since its last release.
    pub fn count(&self, vk: u32) -> (r: usize)
        ensures
            r == count_of(self@, vk),
    {
        match self.counts.get(&vk) {
            Some(n) => *n,
            None => 0,
        }
    }

    /// Records a press of `vk` and returns its repeat count: 0 for the first
    /// press, one more for each further press before a release.
    pub fn press(&mut self, vk: u32) -> (r: usize)
        ensures
            r == count_of(old(self)@, vk),
            final(self)@ == after_press(old(self)@, vk),
    {
        let n = self.count(vk);
        let next = if n < usize::MAX {
            n + 1
        } else {
            n
        };
        self.counts.insert(vk, next);
        n
    }

    /// Records a release of `vk`: its counter starts again from 0.
    pub fn release(&mut self, vk: u32)
        ensures
            final(self)@ == after_release(old(self)@, vk),
    {
        self.counts.remove(&vk);
    }
}

/// Presses of one key in a row report 0, 1, 2, ...: after `n` presses of a
/// key that was not held, its counter is `n`.
pub proof fn lemma_presses_count_up(counts: Map<u32, usize>, vk: u32, n: nat)
    requires
        count_of(counts, vk) == 0,
        n <= usize::MAX,
    ensures
        count_of(after_presses(counts, vk, n), vk) == n,
    decreases n,
{
    if n > 0 {
        lemma_presses_count_up(counts, vk, (n - 1) as nat);
    }
}

/// Press, press, press, release, press of one key that was not held report
/// the repeat counts 0, 1, 2 and then 0 again: each press reports the count
/// before it, which is 0 for the first by the requirement.
pub proof fn lemma_release_resets(counts: Map<u32, usize>, vk: u32)
    requires
        count_of(counts, vk) == 0,
    ensures
        count_of(after_press(counts, vk), vk) == 1,
        count_of(after_press(after_press(counts, vk), vk), vk) == 2,
        count_of(after_release(after_presses(counts, vk, 3), vk), vk) == 0,
{
    reveal_with_fuel(after_presses, 4);
}

} // verus!
