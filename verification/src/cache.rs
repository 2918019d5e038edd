//! A bounded cache from race id to the reminder schedule of that race.
//!
//! The cache keeps the schedules that were used most recently. When it is
//! full, the one that has gone unused longest makes room. A race whose
//! schedule was evicted simply gets a fresh one at its next look.

use vstd::prelude::*;
use crate::nag::{after_look, below, fires, NagSchedule};

verus! {

/// One cached schedule, as contracts speak of it: the race id and the
/// thresholds left.
pub type Slot = (i64, Seq<i64>);

/// Whether a schedule is cached for the race.
pub open spec fn holds_race(slots: Seq<Slot>, race: i64) -> bool {
    exists|i: int| 0 <= i < slots.len() && (#[trigger] slots[i]).0 == race
}

/// Where the schedule of the race is cached.
pub open spec fn position(slots: Seq<Slot>, race: i64) -> int {
    choose|i: int| 0 <= i < slots.len() && (#[trigger] slots[i]).0 == race
}

/// No race has two schedules.
pub open spec fn distinct_races(slots: Seq<Slot>) -> bool {
    forall|i: int, j: int|
        0 <= i < j < slots.len() ==> (#[trigger] slots[i]).0 != (#[trigger] slots[j]).0
}

/// The most recently used `capacity` slots; the cache lists its slots from
/// the least to the most recently used.
pub open spec fn newest(slots: Seq<Slot>, capacity: int) -> Seq<Slot> {
    if slots.len() <= capacity {
        slots
    } else {
        slots.subrange(slots.len() - capacity, slots.len() as int)
    }
}

/// The slots without the one of the race.
pub open spec fn without(slots: Seq<Slot>, race: i64) -> Seq<Slot> {
    if holds_race(slots, race) {
        slots.remove(position(slots, race))
    } else {
        slots
    }
}

/// The slots after the race's schedule was used and left as `schedule`: it
/// moves to the most recent place, and what no longer fits is dropped from
/// the least recent end.
pub open spec fn used(slots: Seq<Slot>, race: i64, schedule: Seq<i64>, capacity: int) -> Seq<
    Slot,
> {
    newest(without(slots, race).push((race, schedule)), capacity)
}

/// The schedule to look at for a race: the cached one, or for a race seen
/// for the first time the full list without what has already passed.
pub open spec fn schedule_for(slots: Seq<Slot>, race: i64, full: Seq<i64>, minutes: int) -> Seq<
    i64,
> {
    if holds_race(slots, race) {
        slots[position(slots, race)].1
    } else {
        below(full, minutes)
    }
}

struct Entry {
    race: i64,
    schedule: NagSchedule,
}

/// The bounded cache of reminder schedules.
pub struct NagCache {
    capacity: usize,
    entries: Vec<Entry>,
}

impl NagCache {
    /// The slots, from the least to the most recently used.
    pub closed spec fn view(&self) -> Seq<Slot> {
        Seq::new(self.entries@.len(), |i: int| (self.entries@[i].race, self.entries@[i].schedule@))
    }

    /// The largest number of schedules kept.
    pub closed spec fn limit(&self) -> nat {
        self.capacity as nat
    }

    /// Never more schedules than the limit, and never two for one race.
    pub open spec fn wf(&self) -> bool {
        &&& self@.len() <= self.limit()
        &&& distinct_races(self@)
    }

    pub fn new(capacity: usize) -> (cache: NagCache)
        ensures
            cache.wf(),
            cache.limit() == capacity,
            cache@ == Seq::<Slot>::empty(),
    {
        let cache = NagCache { capacity, entries: Vec::new() };
        assert(cache@ =~= Seq::<Slot>::empty());
        cache
    }

    pub fn capacity(&self) -> (capacity: usize)
        ensures
            capacity == self.limit(),
    {
        self.capacity
    }

    pub fn len(&self) -> (count: usize)
        ensures
            count == self@.len(),
    {
        self.entries.len()
    }

    fn find(&self, race: i64) -> (found: Option<usize>)
        ensures
            match found {
                Some(i) => i < self@.len() && self@[i as int].0 == race,
                None => !holds_race(self@, race),
            },
    {
        let mut i: usize = 0;
        while i < self.entries.len()
            invariant
                i <= self.entries.len(),
                forall|j: int| 0 <= j < i ==> (#[trigger] self@[j]).0 != race,
            decreases self.entries.len() - i,
        {
            if self.entries[i].race == race {
                return Some(i);
            }
            i += 1;
        }
        None
    }

    /// Whether a schedule is cached for the race. Asking does not count as
    /// use.
    pub fn contains(&self, race: i64) -> (cached: bool)
        ensures
            cached == holds_race(self@, race),
    {
        self.find(race).is_some()
    }

    /// The thresholds left for the race, if its schedule is cached. Asking
    /// does not count as use.
    pub fn remaining(&self, race: i64) -> (left: Option<Vec<i64>>)
        requires
            self.wf(),
        ensures
            match left {
                Some(list) => holds_race(self@, race) && list@ == self@[position(self@, race)].1,
                None => !holds_race(self@, race),
            },
    {
        match self.find(race) {
            Some(i) => {
                let list = self.entries[i].schedule.remaining();
                let mut copy: Vec<i64> = Vec::new();
                let mut k: usize = 0;
                while k < list.len()
                    invariant
                        k <= list.len(),
                        copy@ == list@.take(k as int),
                    decreases list.len() - k,
                {
                    copy.push(list[k]);
                    assert(list@.take(k + 1) =~= list@.take(k as int).push(list@[k as int]));
                    k += 1;
                }
                assert(list@.take(k as int) =~= list@);
                assert(position(self@, race) == i);
                Some(copy)
            },
            None => None,
        }
    }

    /// Looks at the schedule of a race with `minutes` left before its start.
    ///
    /// A race without a cached schedule gets one first: `full` without the
    /// thresholds that are not below `minutes`. Then the smallest threshold
    /// left fires, and is used up, if fewer minutes remain than it asks for.
    /// The schedule becomes the most recently used one; if the cache is over
    /// its limit after that, the least recently used schedule is dropped.
    pub fn look(&mut self, race: i64, full: &Vec<i64>, minutes: i64) -> (fired: Option<i64>)
        requires
            old(self).wf(),
        ensures
            final(self).wf(),
            final(self).limit() == old(self).limit(),
            fired == fires(schedule_for(old(self)@, race, full@, minutes as int), minutes as int),
            final(self)@ == used(
                old(self)@,
                race,
                after_look(schedule_for(old(self)@, race, full@, minutes as int), minutes as int),
                old(self).limit() as int,
            ),
    {
        let ghost before = self@;
        let mut schedule = match self.find(race) {
            Some(i) => {
                assert(position(before, race) == i);
                let entry = self.entries.remove(i);
                assert(self@ =~= before.remove(i as int));
                entry.schedule
            },
            None => NagSchedule::start(full, minutes),
        };
        let ghost rest = self@;
        assert(rest == without(before, race));
        assert(distinct_races(rest) && !holds_race(rest, race)) by {
            if holds_race(before, race) {
                let p = position(before, race);
                assert forall|i: int, j: int| 0 <= i < j < rest.len() implies (#[trigger] rest[i]).0
                    != (#[trigger] rest[j]).0 by {
                    let bi = if i < p { i } else { i + 1 };
                    let bj = if j < p { j } else { j + 1 };
                    assert(rest[i] == before[bi] && rest[j] == before[bj]);
                }
                assert forall|i: int| 0 <= i < rest.len() implies (#[trigger] rest[i]).0 != race by {
                    let bi = if i < p { i } else { i + 1 };
                    assert(rest[i] == before[bi]);
                    if bi < p {
                        assert(before[bi].0 != before[p].0);
                    } else {
                        assert(before[p].0 != before[bi].0);
                    }
                }
            }
        }
        let fired = schedule.look(minutes);
        let ghost slot = (race, schedule@);
        if self.capacity == 0 {
            assert(self@ =~= newest(rest.push(slot), 0));
            return fired;
        }
        if self.entries.len() >= self.capacity {
            let _ = self.entries.remove(0);
            assert(self@ =~= rest.remove(0));
        }
        let ghost trimmed = self@;
        self.entries.push(Entry { race, schedule });
        assert(self@ =~= trimmed.push(slot));
        assert(self@ =~= newest(rest.push(slot), self.capacity as int));
        assert(distinct_races(self@)) by {
            assert forall|i: int, j: int| 0 <= i < j < self@.len() implies (#[trigger] self@[i]).0
                != (#[trigger] self@[j]).0 by {
                let shift = rest.len() - trimmed.len();
                assert(self@[i] == rest[i + shift]);
                if j < trimmed.len() {
                    assert(self@[j] == rest[j + shift]);
                } else {
                    assert(self@[j] == slot);
                }
            }
        }
        fired
    }

    /// Drops the schedule of a race, if one is cached.
    pub fn forget(&mut self, race: i64)
        requires
            old(self).wf(),
        ensures
            final(self).wf(),
            final(self).limit() == old(self).limit(),
            final(self)@ == without(old(self)@, race),
    {
        let ghost before = self@;
        match self.find(race) {
            Some(i) => {
                assert(position(before, race) == i);
                let _ = self.entries.remove(i);
                assert(self@ =~= before.remove(i as int));
                assert forall|a: int, b: int| 0 <= a < b < self@.len() implies (#[trigger] self@[a]).0
                    != (#[trigger] self@[b]).0 by {
                    let ba = if a < i { a } else { a + 1 };
                    let bb = if b < i { b } else { b + 1 };
                    assert(self@[a] == before[ba] && self@[b] == before[bb]);
                }
            },
            None => {},
        }
    }
}

} // verus!
