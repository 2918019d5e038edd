//! The reminder schedule of one race: the thresholds, in minutes before the
//! start, at which the unconfirmed are still to be nagged.

use vstd::prelude::*;

verus! {

/// Whole minutes between now and the start, rounded towards zero; negative
/// once the start has passed.
pub open spec fn minutes_between(occurs: int, now: int) -> int {
    if occurs >= now {
        (occurs - now) / 60
    } else {
        -((now - occurs) / 60)
    }
}

pub fn minutes_until_start(occurs: i64, now: i64) -> (minutes: i64)
    ensures
        minutes == minutes_between(occurs as int, now as int),
{
    if occurs >= now {
        let seconds: i128 = occurs as i128 - now as i128;
        (seconds / 60) as i64
    } else {
        let seconds: i128 = now as i128 - occurs as i128;
        (-(seconds / 60)) as i64
    }
}

/// Each threshold is larger than every one after it.
pub open spec fn strictly_descending(s: Seq<i64>) -> bool {
    forall|i: int, j: int| 0 <= i < j < s.len() ==> s[i] > s[j]
}

/// The thresholds below a limit, in the order they had.
pub open spec fn below(s: Seq<i64>, limit: int) -> Seq<i64> {
    s.filter(|t: i64| t < limit)
}

/// Whether a list of thresholds is fit to nag by.
pub fn is_strictly_descending(list: &Vec<i64>) -> (fit: bool)
    ensures
        fit == strictly_descending(list@),
{
    let mut i: usize = 1;
    while i < list.len()
        invariant
            1 <= i,
            forall|a: int, b: int| 0 <= a < b < i && b < list.len() ==> list[a] > list[b],
        decreases list.len() - i,
    {
        if list[i - 1] <= list[i] {
            return false;
        }
        proof {
            assert forall|a: int, b: int| 0 <= a < b < i + 1 && b < list.len() implies list[a]
                > list[b] by {
                if b == i && a < i - 1 {
                    assert(list[a] > list[i - 1]);
                }
            }
        }
        i += 1;
    }
    true
}

/// The thresholds still ahead when a race is first looked at: those of
/// `full` that are below the minutes left. A threshold that has already
/// passed is dropped and will never fire.
pub fn nag_thresholds(full: &Vec<i64>, max_minutes: i64) -> (kept: Vec<i64>)
    ensures
        kept@ == below(full@, max_minutes as int),
{
    let mut kept: Vec<i64> = Vec::new();
    let mut i: usize = 0;
    proof {
        reveal(Seq::filter);
        assert(full@.take(0) =~= Seq::<i64>::empty());
    }
    while i < full.len()
        invariant
            i <= full.len(),
            kept@ == below(full@.take(i as int), max_minutes as int),
        decreases full.len() - i,
    {
        proof {
            reveal(Seq::filter);
            assert(full@.take(i + 1).drop_last() =~= full@.take(i as int));
        }
        if full[i] < max_minutes {
            kept.push(full[i]);
        }
        i += 1;
    }
    assert(full@.take(i as int) =~= full@);
    kept
}

/// Whether the next threshold of a schedule is due: there is one left, and
/// fewer minutes remain than the smallest of them, which stands last.
pub open spec fn due(remaining: Seq<i64>, minutes: int) -> bool {
    remaining.len() > 0 && minutes < remaining.last()
}

/// The threshold that fires at a look with `minutes` left, if any.
pub open spec fn fires(remaining: Seq<i64>, minutes: int) -> Option<i64> {
    if due(remaining, minutes) {
        Some(remaining.last())
    } else {
        None
    }
}

/// The schedule after a look with `minutes` left: a threshold that fired is
/// gone, and nothing else has changed.
pub open spec fn after_look(remaining: Seq<i64>, minutes: int) -> Seq<i64> {
    if due(remaining, minutes) {
        remaining.drop_last()
    } else {
        remaining
    }
}

/// The thresholds of one race that have not fired yet, largest first.
#[derive(Debug, Clone, PartialEq, Eq)]
pub struct NagSchedule {
    remaining: Vec<i64>,
}

impl View for NagSchedule {
    type V = Seq<i64>;

    closed spec fn view(&self) -> Seq<i64> {
        self.remaining@
    }
}

impl NagSchedule {
    /// The schedule of a race first looked at with `minutes` left.
    pub fn start(full: &Vec<i64>, minutes: i64) -> (schedule: NagSchedule)
        ensures
            schedule@ == below(full@, minutes as int),
    {
        NagSchedule { remaining: nag_thresholds(full, minutes) }
    }

    /// The smallest threshold left.
    pub fn peek(&self) -> (next: Option<i64>)
        ensures
            next == if self@.len() > 0 {
                Some(self@.last())
            } else {
                None
            },
    {
        let n = self.remaining.len();
        if n > 0 {
            Some(self.remaining[n - 1])
        } else {
            None
        }
    }

    /// The thresholds left, largest first.
    pub fn remaining(&self) -> (left: &Vec<i64>)
        ensures
            left@ == self@,
    {
        &self.remaining
    }

    /// Looks at the schedule with `minutes` left before the start. The
    /// smallest threshold left fires, and is used up, if fewer minutes remain
    /// than it asks for. At most one threshold fires per look.
    pub fn look(&mut self, minutes: i64) -> (fired: Option<i64>)
        ensures
            fired == fires(old(self)@, minutes as int),
            final(self)@ == after_look(old(self)@, minutes as int),
    {
        let n = self.remaining.len();
        if n > 0 && minutes < self.remaining[n - 1] {
            self.remaining.pop()
        } else {
            None
        }
    }
}

/// The thresholds that fire over a run of looks, in the order of firing.
pub open spec fn fired_over(remaining: Seq<i64>, looks: Seq<int>) -> Seq<i64>
    decreases looks.len(),
{
    if looks.len() == 0 {
        Seq::empty()
    } else {
        let earlier = fired_over(remaining, looks.drop_last());
        match fires(left_over(remaining, looks.drop_last()), looks.last()) {
            Some(t) => earlier.push(t),
            None => earlier,
        }
    }
}

/// The schedule after a run of looks.
pub open spec fn left_over(remaining: Seq<i64>, looks: Seq<int>) -> Seq<i64>
    decreases looks.len(),
{
    if looks.len() == 0 {
        remaining
    } else {
        after_look(left_over(remaining, looks.drop_last()), looks.last())
    }
}

/// What is kept below a limit are the thresholds of the list that are below
/// the limit.
pub proof fn lemma_below_members(full: Seq<i64>, limit: int)
    ensures
        forall|t: i64| #[trigger] below(full, limit).contains(t) <==> full.contains(t) && t < limit,
    decreases full.len(),
{
    reveal(Seq::filter);
    let kept = below(full, limit);
    if full.len() == 0 {
        assert forall|t: i64| #[trigger] kept.contains(t) <==> full.contains(t) && t < limit by {
            if kept.contains(t) {
                let k = choose|k: int| 0 <= k < kept.len() && kept[k] == t;
            }
            if full.contains(t) {
                let m = choose|m: int| 0 <= m < full.len() && full[m] == t;
            }
        }
    } else {
        let front = full.drop_last();
        let inner = below(front, limit);
        lemma_below_members(front, limit);
        assert forall|t: i64| #[trigger] kept.contains(t) <==> full.contains(t) && t < limit by {
            if kept.contains(t) {
                let k = choose|k: int| 0 <= k < kept.len() && kept[k] == t;
                if k < inner.len() {
                    assert(inner[k] == t);
                    assert(inner.contains(t));
                    assert(front.contains(t));
                    let m = choose|m: int| 0 <= m < front.len() && front[m] == t;
                    assert(full[m] == t);
                } else {
                    assert(full[full.len() - 1] == t);
                }
            }
            if full.contains(t) && t < limit {
                let m = choose|m: int| 0 <= m < full.len() && full[m] == t;
                if m < front.len() {
                    assert(front[m] == t);
                    assert(front.contains(t));
                    assert(inner.contains(t));
                    let k = choose|k: int| 0 <= k < inner.len() && inner[k] == t;
                    assert(kept[k] == t);
                } else {
                    assert(kept[kept.len() - 1] == t);
                }
            }
        }
    }
}

/// Filtering keeps the order: what is kept of a descending list is
/// descending.
pub proof fn lemma_below_descending(full: Seq<i64>, limit: int)
    requires
        strictly_descending(full),
    ensures
        strictly_descending(below(full, limit)),
    decreases full.len(),
{
    reveal(Seq::filter);
    let kept = below(full, limit);
    if full.len() > 0 {
        let front = full.drop_last();
        let inner = below(front, limit);
        assert(strictly_descending(front)) by {
            assert forall|i: int, j: int| 0 <= i < j < front.len() implies front[i] > front[j] by {
                assert(front[i] == full[i] && front[j] == full[j]);
            }
        }
        lemma_below_descending(front, limit);
        lemma_below_members(front, limit);
        assert forall|i: int, j: int| 0 <= i < j < kept.len() implies kept[i] > kept[j] by {
            if j < inner.len() {
                assert(kept[i] == inner[i] && kept[j] == inner[j]);
            } else {
                assert(kept[j] == full[full.len() - 1]);
                assert(inner[i] == kept[i]);
                assert(inner.contains(kept[i]));
                assert(front.contains(kept[i]));
                let m = choose|m: int| 0 <= m < front.len() && front[m] == kept[i];
                assert(full[m] == kept[i]);
                assert(full[m] > full[full.len() - 1]);
            }
        }
    }
}

/// What fires over a run of looks is taken off the end of the schedule, one
/// threshold at a time: the thresholds left are the front of the schedule as
/// it was, and the fired ones are its tail, read from the end.
pub proof fn lemma_fired_come_off_the_end(remaining: Seq<i64>, looks: Seq<int>)
    ensures
        fired_over(remaining, looks).len() <= remaining.len(),
        left_over(remaining, looks) == remaining.take(
            remaining.len() - fired_over(remaining, looks).len(),
        ),
        forall|k: int|
            0 <= k < fired_over(remaining, looks).len() ==> #[trigger] fired_over(
                remaining,
                looks,
            )[k] == remaining[remaining.len() - 1 - k],
    decreases looks.len(),
{
    let left = left_over(remaining, looks);
    let fired = fired_over(remaining, looks);
    if looks.len() == 0 {
        assert(left =~= remaining.take(remaining.len() - fired.len()));
    } else {
        lemma_fired_come_off_the_end(remaining, looks.drop_last());
        let before = left_over(remaining, looks.drop_last());
        let earlier = fired_over(remaining, looks.drop_last());
        if due(before, looks.last()) {
            assert(fired == earlier.push(before.last()));
            assert(left =~= remaining.take(remaining.len() - fired.len()));
            assert forall|k: int| 0 <= k < fired.len() implies #[trigger] fired[k]
                == remaining[remaining.len() - 1 - k] by {
                if k < earlier.len() {
                    assert(fired[k] == earlier[k]);
                }
            }
        }
    }
}

/// Each threshold fires at most once: over any run of looks at a strictly
/// descending schedule, every fired threshold belonged to the schedule and
/// none appears twice among the fired ones.
pub proof fn lemma_each_threshold_fires_once(remaining: Seq<i64>, looks: Seq<int>)
    requires
        strictly_descending(remaining),
    ensures
        fired_over(remaining, looks).no_duplicates(),
        forall|k: int|
            0 <= k < fired_over(remaining, looks).len() ==> remaining.contains(
                #[trigger] fired_over(remaining, looks)[k],
            ),
{
    lemma_fired_come_off_the_end(remaining, looks);
    let fired = fired_over(remaining, looks);
    assert forall|a: int, b: int| 0 <= a < fired.len() && 0 <= b < fired.len() && a != b implies fired[a]
        != fired[b] by {
        let pa = remaining.len() - 1 - a;
        let pb = remaining.len() - 1 - b;
        assert(remaining[pa] == fired[a]);
        assert(remaining[pb] == fired[b]);
        if pa < pb {
            assert(remaining[pa] > remaining[pb]);
        } else {
            assert(remaining[pb] > remaining[pa]);
        }
    }
    assert forall|k: int| 0 <= k < fired.len() implies remaining.contains(#[trigger] fired[k]) by {
        assert(remaining[remaining.len() - 1 - k] == fired[k]);
    }
}

/// The thresholds of a strictly descending schedule fire from the smallest
/// up: each one that fires is larger than those that fired before it.
pub proof fn lemma_fired_from_the_smallest_up(remaining: Seq<i64>, looks: Seq<int>)
    requires
        strictly_descending(remaining),
    ensures
        forall|a: int, b: int|
            0 <= a < b < fired_over(remaining, looks).len() ==> fired_over(remaining, looks)[a]
                < fired_over(remaining, looks)[b],
{
    lemma_fired_come_off_the_end(remaining, looks);
    let fired = fired_over(remaining, looks);
    assert forall|a: int, b: int| 0 <= a < b < fired.len() implies fired[a] < fired[b] by {
        assert(fired[a] == remaining[remaining.len() - 1 - a]);
        assert(fired[b] == remaining[remaining.len() - 1 - b]);
    }
}

/// A threshold never fires at a look at which as many minutes are left as it
/// asks for, or more.
pub proof fn lemma_fires_only_below_threshold(remaining: Seq<i64>, minutes: int)
    ensures
        match fires(remaining, minutes) {
            Some(t) => minutes < t && remaining.len() > 0 && t == remaining.last(),
            None => after_look(remaining, minutes) == remaining,
        },
{
}

/// A threshold that has fired is not put back when the schedule of its race
/// is set up anew later on: with no more minutes left than at the firing,
/// the threshold is not below the minutes left, and is dropped.
pub proof fn lemma_fired_threshold_is_not_reinstated(
    full: Seq<i64>,
    threshold: i64,
    minutes_at_firing: int,
    minutes_later: int,
)
    requires
        minutes_at_firing < threshold,
        minutes_later <= minutes_at_firing,
    ensures
        !below(full, minutes_later).contains(threshold),
{
    lemma_below_members(full, minutes_later);
}

/// One look at the schedule of a race over its life in the cache.
pub struct Look {
    /// The minutes left before the start.
    pub minutes: int,
    /// Whether the schedule was set up anew for this look, as it is when the
    /// race is looked at for the first time or after its schedule was
    /// evicted.
    pub fresh: bool,
}

/// The schedule that a look finds: a fresh one, or the one the look before
/// left behind.
pub open spec fn found_by_last(full: Seq<i64>, looks: Seq<Look>) -> Seq<i64>
    recommends
        looks.len() > 0,
    decreases looks.len(), 0nat,
{
    if looks.len() == 0 {
        full
    } else if looks.len() == 1 || looks.last().fresh {
        below(full, looks.last().minutes)
    } else {
        left_by_last(full, looks.drop_last())
    }
}

/// The schedule that the last of the looks leaves behind.
pub open spec fn left_by_last(full: Seq<i64>, looks: Seq<Look>) -> Seq<i64>
    recommends
        looks.len() > 0,
    decreases looks.len(), 1nat,
{
    if looks.len() == 0 {
        full
    } else {
        after_look(found_by_last(full, looks), looks.last().minutes)
    }
}

/// The thresholds fired over the looks, in the order of firing.
pub open spec fn fired_in_all(full: Seq<i64>, looks: Seq<Look>) -> Seq<i64>
    decreases looks.len(),
{
    if looks.len() == 0 {
        Seq::empty()
    } else {
        let earlier = fired_in_all(full, looks.drop_last());
        match fires(found_by_last(full, looks), looks.last().minutes) {
            Some(t) => earlier.push(t),
            None => earlier,
        }
    }
}

/// Time only runs forward: no look has more minutes left than the one
/// before it.
pub open spec fn minutes_run_down(looks: Seq<Look>) -> bool {
    forall|i: int, j: int| 0 <= i <= j < looks.len() ==> looks[i].minutes >= looks[j].minutes
}

proof fn lemma_life_of_a_schedule(full: Seq<i64>, looks: Seq<Look>)
    requires
        strictly_descending(full),
        minutes_run_down(looks),
        looks.len() > 0,
    ensures
        strictly_descending(found_by_last(full, looks)),
        strictly_descending(left_by_last(full, looks)),
        forall|t: i64| #[trigger]
            found_by_last(full, looks).contains(t) ==> full.contains(t) && !fired_in_all(
                full,
                looks.drop_last(),
            ).contains(t),
        forall|t: i64| #[trigger]
            left_by_last(full, looks).contains(t) ==> full.contains(t) && !fired_in_all(
                full,
                looks,
            ).contains(t),
        forall|k: int|
            0 <= k < fired_in_all(full, looks).len() ==> looks.last().minutes < #[trigger] fired_in_all(
                full,
                looks,
            )[k] && full.contains(fired_in_all(full, looks)[k]),
        fired_in_all(full, looks).no_duplicates(),
    decreases looks.len(),
{
    let front = looks.drop_last();
    let last = looks.last();
    let found = found_by_last(full, looks);
    let left = left_by_last(full, looks);
    let earlier = fired_in_all(full, front);
    let fired = fired_in_all(full, looks);
    if front.len() > 0 {
        assert(minutes_run_down(front)) by {
            assert forall|i: int, j: int| 0 <= i <= j < front.len() implies front[i].minutes
                >= front[j].minutes by {
                assert(front[i] == looks[i] && front[j] == looks[j]);
            }
        }
        lemma_life_of_a_schedule(full, front);
        assert(front.last() == looks[looks.len() - 2]);
        assert(front.last().minutes >= last.minutes);
    }
    lemma_below_descending(full, last.minutes);
    lemma_below_members(full, last.minutes);
    assert forall|t: i64| #[trigger] found.contains(t) implies full.contains(t) && !earlier.contains(
        t,
    ) by {
        if earlier.contains(t) {
            let k = choose|k: int| 0 <= k < earlier.len() && earlier[k] == t;
            assert(front.last().minutes < earlier[k]);
        }
    }
    assert(strictly_descending(left) && (forall|t: i64| #[trigger]
        left.contains(t) ==> found.contains(t) && !(due(found, last.minutes) && t == found.last())))
        by {
        if due(found, last.minutes) {
            assert forall|i: int, j: int| 0 <= i < j < left.len() implies left[i] > left[j] by {
                assert(left[i] == found[i] && left[j] == found[j]);
            }
            assert forall|t: i64| #[trigger] left.contains(t) implies found.contains(t) && t
                != found.last() by {
                let k = choose|k: int| 0 <= k < left.len() && left[k] == t;
                assert(found[k] == t);
                assert(found[k] > found[found.len() - 1]);
            }
        }
    }
    assert forall|k: int| 0 <= k < fired.len() implies last.minutes < #[trigger] fired[k]
        && full.contains(fired[k]) by {
        if k < earlier.len() {
            assert(fired[k] == earlier[k]);
        } else {
            assert(fired[k] == found[found.len() - 1]);
            assert(found.contains(found[found.len() - 1]));
        }
    }
    assert forall|i: int, j: int| 0 <= i < fired.len() && 0 <= j < fired.len() && i
        != j implies fired[i] != fired[j] by {
        if i < earlier.len() && j < earlier.len() {
            assert(fired[i] == earlier[i] && fired[j] == earlier[j]);
        } else {
            let inside = if i < earlier.len() { i } else { j };
            assert(fired[inside] == earlier[inside]);
            assert(earlier.contains(earlier[inside]));
            assert(found.contains(found[found.len() - 1]));
        }
    }
    assert forall|t: i64| #[trigger] left.contains(t) implies full.contains(t) && !fired.contains(
        t,
    ) by {
        assert(found.contains(t));
        if fired.contains(t) {
            let k = choose|k: int| 0 <= k < fired.len() && fired[k] == t;
            if k < earlier.len() {
                assert(earlier[k] == t);
                assert(earlier.contains(t));
            }
        }
    }
}

/// No threshold fires twice for a race, whether its schedule stays in the
/// cache or is evicted and set up anew in between, as long as time runs
/// forward. Every threshold that fires is one of the full list, and fires
/// at a look with fewer minutes left than it asks for.
pub proof fn lemma_no_threshold_fires_twice(full: Seq<i64>, looks: Seq<Look>)
    requires
        strictly_descending(full),
        minutes_run_down(looks),
    ensures
        fired_in_all(full, looks).no_duplicates(),
        forall|k: int|
            0 <= k < fired_in_all(full, looks).len() ==> full.contains(
                #[trigger] fired_in_all(full, looks)[k],
            ),
{
    if looks.len() > 0 {
        lemma_life_of_a_schedule(full, looks);
    }
}

} // verus!
