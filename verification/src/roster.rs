//! Who has been seen taking part in which race.
//!
//! The roster is kept in memory only. It is what tells, when a race is
//! completed, whose roles are to be taken away again.

use vstd::prelude::*;

verus! {

/// One sighting: the race and the user.
pub type Sighting = (i64, u64);

/// The users seen for a race, in the order in which they were first seen.
pub open spec fn members_of(book: Seq<Sighting>, race: i64) -> Seq<u64> {
    book.filter(|s: Sighting| s.0 == race).map_values(|s: Sighting| s.1)
}

/// The sightings of every race but one.
pub open spec fn without_race(book: Seq<Sighting>, race: i64) -> Seq<Sighting> {
    book.filter(|s: Sighting| s.0 != race)
}

/// The book after the users were seen for the race, one after the other: a
/// user who is not yet in the book for the race is written at its end.
pub open spec fn after_sightings(book: Seq<Sighting>, race: i64, users: Seq<u64>) -> Seq<Sighting>
    decreases users.len(),
{
    if users.len() == 0 {
        book
    } else {
        let earlier = after_sightings(book, race, users.drop_last());
        if earlier.contains((race, users.last())) {
            earlier
        } else {
            earlier.push((race, users.last()))
        }
    }
}

/// Those of the users who were new to the race when they were seen, each
/// once, in the order in which they were seen.
pub open spec fn newly_seen(book: Seq<Sighting>, race: i64, users: Seq<u64>) -> Seq<u64>
    decreases users.len(),
{
    if users.len() == 0 {
        Seq::empty()
    } else {
        let earlier = after_sightings(book, race, users.drop_last());
        let found = newly_seen(book, race, users.drop_last());
        if earlier.contains((race, users.last())) {
            found
        } else {
            found.push(users.last())
        }
    }
}

/// The participants seen so far, race by race.
#[derive(Debug)]
pub struct Roster {
    sightings: Vec<(i64, u64)>,
}

impl Roster {
    /// The sightings, in the order in which they were made.
    pub closed spec fn view(&self) -> Seq<Sighting> {
        self.sightings@
    }

    /// No user is written twice for one race.
    pub open spec fn wf(&self) -> bool {
        self@.no_duplicates()
    }

    pub fn new() -> (roster: Roster)
        ensures
            roster.wf(),
            roster@ == Seq::<Sighting>::empty(),
    {
        Roster { sightings: Vec::new() }
    }

    /// Whether the user has been seen for the race.
    pub fn is_tracked(&self, race: i64, user: u64) -> (known: bool)
        ensures
            known == self@.contains((race, user)),
    {
        let mut i: usize = 0;
        while i < self.sightings.len()
            invariant
                i <= self.sightings.len(),
                forall|j: int| 0 <= j < i ==> self@[j] != (race, user),
            decreases self.sightings.len() - i,
        {
            let seen = self.sightings[i];
            if seen.0 == race && seen.1 == user {
                assert(self@[i as int] == (race, user));
                return true;
            }
            i += 1;
        }
        false
    }

    /// Writes the user down for the race. Tells whether the user was new to
    /// it; a user already written down stays written once.
    pub fn track(&mut self, race: i64, user: u64) -> (added: bool)
        requires
            old(self).wf(),
        ensures
            final(self).wf(),
            added == !old(self)@.contains((race, user)),
            final(self)@ == after_sightings(old(self)@, race, seq![user]),
    {
        let ghost before = self@;
        assert(seq![user].drop_last() =~= Seq::<u64>::empty());
        assert(after_sightings(before, race, Seq::<u64>::empty()) == before);
        if self.is_tracked(race, user) {
            false
        } else {
            self.sightings.push((race, user));
            assert(self@ == before.push((race, user)));
            assert forall|i: int, j: int| 0 <= i < self@.len() && 0 <= j < self@.len() && i
                != j implies self@[i] != self@[j] by {
                if i < before.len() && j < before.len() {
                    assert(before[i] != before[j]);
                } else if i < before.len() {
                    assert(before[i] != (race, user));
                } else {
                    assert(before[j] != (race, user));
                }
            }
            true
        }
    }

    /// Writes the users down for the race and hands back those who were new
    /// to it.
    pub fn track_all(&mut self, race: i64, users: &Vec<u64>) -> (added: Vec<u64>)
        requires
            old(self).wf(),
        ensures
            final(self).wf(),
            final(self)@ == after_sightings(old(self)@, race, users@),
            added@ == newly_seen(old(self)@, race, users@),
    {
        let ghost before = self@;
        let mut added: Vec<u64> = Vec::new();
        let mut i: usize = 0;
        assert(users@.take(0) =~= Seq::<u64>::empty());
        while i < users.len()
            invariant
                i <= users.len(),
                self.wf(),
                self@ == after_sightings(before, race, users@.take(i as int)),
                added@ == newly_seen(before, race, users@.take(i as int)),
            decreases users.len() - i,
        {
            let ghost now = self@;
            let user = users[i];
            proof {
                assert(users@.take(i + 1).drop_last() =~= users@.take(i as int));
                assert(users@.take(i + 1).last() == user);
                assert(seq![user].drop_last() =~= Seq::<u64>::empty());
                assert(after_sightings(now, race, Seq::<u64>::empty()) == now);
            }
            if self.track(race, user) {
                added.push(user);
            }
            i += 1;
        }
        assert(users@.take(i as int) =~= users@);
        added
    }

    /// The users seen for the race, in the order in which they were first
    /// seen.
    pub fn members(&self, race: i64) -> (users: Vec<u64>)
        ensures
            users@ == members_of(self@, race),
    {
        let mut users: Vec<u64> = Vec::new();
        let mut i: usize = 0;
        proof {
            reveal(Seq::filter);
            assert(self@.take(0) =~= Seq::<Sighting>::empty());
            assert(members_of(self@.take(0), race) =~= Seq::<u64>::empty());
        }
        while i < self.sightings.len()
            invariant
                i <= self.sightings.len(),
                users@ == members_of(self@.take(i as int), race),
            decreases self.sightings.len() - i,
        {
            let seen = self.sightings[i];
            proof {
                reveal(Seq::filter);
                let shorter = self@.take(i as int);
                let longer = self@.take(i + 1);
                assert(longer.drop_last() =~= shorter);
                assert(longer.last() == seen);
                let kept = shorter.filter(|s: Sighting| s.0 == race);
                if seen.0 == race {
                    assert(longer.filter(|s: Sighting| s.0 == race) == kept.push(seen));
                    assert(kept.push(seen).map_values(|s: Sighting| s.1) =~= kept.map_values(
                        |s: Sighting| s.1,
                    ).push(seen.1));
                } else {
                    assert(longer.filter(|s: Sighting| s.0 == race) == kept);
                }
            }
            if seen.0 == race {
                users.push(seen.1);
            }
            i += 1;
        }
        assert(self@.take(i as int) =~= self@);
        users
    }

    /// Takes the race out of the roster and hands back the users that were
    /// seen for it.
    pub fn release(&mut self, race: i64) -> (users: Vec<u64>)
        requires
            old(self).wf(),
        ensures
            final(self).wf(),
            users@ == members_of(old(self)@, race),
            final(self)@ == without_race(old(self)@, race),
    {
        let users = self.members(race);
        let ghost before = self@;
        let mut kept: Vec<(i64, u64)> = Vec::new();
        let mut i: usize = 0;
        proof {
            reveal(Seq::filter);
            assert(before.take(0) =~= Seq::<Sighting>::empty());
        }
        while i < self.sightings.len()
            invariant
                i <= self.sightings.len(),
                self@ == before,
                kept@ == without_race(before.take(i as int), race),
            decreases self.sightings.len() - i,
        {
            let seen = self.sightings[i];
            proof {
                reveal(Seq::filter);
                assert(before.take(i + 1).drop_last() =~= before.take(i as int));
                assert(before.take(i + 1).last() == seen);
            }
            if seen.0 != race {
                kept.push(seen);
            }
            i += 1;
        }
        assert(before.take(i as int) =~= before);
        proof {
            lemma_filter_keeps_distinct(before, race);
        }
        self.sightings = kept;
        users
    }
}

/// Taking a race out of a book without repeats leaves a book without
/// repeats, which holds nothing of that race and all of every other.
pub proof fn lemma_filter_keeps_distinct(book: Seq<Sighting>, race: i64)
    requires
        book.no_duplicates(),
    ensures
        without_race(book, race).no_duplicates(),
        forall|s: Sighting| #[trigger]
            without_race(book, race).contains(s) <==> book.contains(s) && s.0 != race,
    decreases book.len(),
{
    reveal(Seq::filter);
    let kept = without_race(book, race);
    if book.len() == 0 {
        assert forall|s: Sighting| #[trigger] kept.contains(s) <==> book.contains(s) && s.0
            != race by {
            if kept.contains(s) {
                let k = choose|k: int| 0 <= k < kept.len() && kept[k] == s;
            }
            if book.contains(s) {
                let k = choose|k: int| 0 <= k < book.len() && book[k] == s;
            }
        }
    } else {
        let front = book.drop_last();
        let inner = without_race(front, race);
        assert(front.no_duplicates()) by {
            assert forall|i: int, j: int| 0 <= i < front.len() && 0 <= j < front.len() && i
                != j implies front[i] != front[j] by {
                assert(front[i] == book[i] && front[j] == book[j]);
            }
        }
        lemma_filter_keeps_distinct(front, race);
        assert forall|s: Sighting| #[trigger] kept.contains(s) <==> book.contains(s) && s.0
            != race by {
            if kept.contains(s) {
                let k = choose|k: int| 0 <= k < kept.len() && kept[k] == s;
                if k < inner.len() {
                    assert(inner[k] == s);
                    assert(inner.contains(s));
                    assert(front.contains(s));
                    let m = choose|m: int| 0 <= m < front.len() && front[m] == s;
                    assert(book[m] == s);
                } else {
                    assert(book[book.len() - 1] == s);
                }
            }
            if book.contains(s) && s.0 != race {
                let m = choose|m: int| 0 <= m < book.len() && book[m] == s;
                if m < front.len() {
                    assert(front[m] == s);
                    assert(front.contains(s));
                    assert(inner.contains(s));
                    let k = choose|k: int| 0 <= k < inner.len() && inner[k] == s;
                    assert(kept[k] == s);
                } else {
                    assert(kept[kept.len() - 1] == s);
                }
            }
        }
        assert forall|i: int, j: int| 0 <= i < kept.len() && 0 <= j < kept.len() && i
            != j implies kept[i] != kept[j] by {
            if i < inner.len() && j < inner.len() {
                assert(kept[i] == inner[i] && kept[j] == inner[j]);
            } else {
                let inside = if i < inner.len() { i } else { j };
                assert(kept[inside] == inner[inside]);
                assert(inner.contains(inner[inside]));
                assert(front.contains(inner[inside]));
                let m = choose|m: int| 0 <= m < front.len() && front[m] == inner[inside];
                assert(book[m] == inner[inside]);
                assert(book[m] != book[book.len() - 1]);
            }
        }
    }
}

/// Seeing users only ever adds to the book: what was written stays, in its
/// place, and every user seen is in the book for the race afterwards.
pub proof fn lemma_sightings_are_kept(book: Seq<Sighting>, race: i64, users: Seq<u64>)
    ensures
        book.len() <= after_sightings(book, race, users).len(),
        after_sightings(book, race, users).take(book.len() as int) == book,
        forall|s: Sighting| book.contains(s) ==> #[trigger] after_sightings(book, race, users).contains(s),
        forall|k: int|
            0 <= k < users.len() ==> after_sightings(book, race, users).contains(
                (race, #[trigger] users[k]),
            ),
    decreases users.len(),
{
    let after = after_sightings(book, race, users);
    if users.len() == 0 {
        assert(after.take(book.len() as int) =~= book);
    } else {
        let front = users.drop_last();
        let earlier = after_sightings(book, race, front);
        lemma_sightings_are_kept(book, race, front);
        assert(after.take(book.len() as int) =~= earlier.take(book.len() as int));
        assert forall|s: Sighting| earlier.contains(s) implies after.contains(s) by {
            let k = choose|k: int| 0 <= k < earlier.len() && earlier[k] == s;
            assert(after[k] == s);
        }
        assert forall|k: int| 0 <= k < users.len() implies after.contains(
            (race, #[trigger] users[k]),
        ) by {
            if k < front.len() {
                assert(front[k] == users[k]);
                assert(earlier.contains((race, front[k])));
            } else if !earlier.contains((race, users.last())) {
                assert(after[after.len() - 1] == (race, users.last()));
            }
        }
    }
}

/// Users who are all in the book for the race already change nothing when
/// they are seen again, and none of them counts as new.
pub proof fn lemma_known_users_add_nothing(book: Seq<Sighting>, race: i64, users: Seq<u64>)
    requires
        forall|k: int| 0 <= k < users.len() ==> book.contains((race, #[trigger] users[k])),
    ensures
        after_sightings(book, race, users) == book,
        newly_seen(book, race, users) == Seq::<u64>::empty(),
    decreases users.len(),
{
    if users.len() > 0 {
        let front = users.drop_last();
        assert forall|k: int| 0 <= k < front.len() implies book.contains(
            (race, #[trigger] front[k]),
        ) by {
            assert(front[k] == users[k]);
        }
        lemma_known_users_add_nothing(book, race, front);
        assert(book.contains((race, users[users.len() - 1])));
    }
}

/// Taking in the same reactors a second time adds nobody and hands back
/// nobody: a role is granted to a newcomer once, however often a tick is run
/// again.
pub proof fn lemma_seeing_again_adds_nothing(book: Seq<Sighting>, race: i64, users: Seq<u64>)
    ensures
        after_sightings(after_sightings(book, race, users), race, users) == after_sightings(
            book,
            race,
            users,
        ),
        newly_seen(after_sightings(book, race, users), race, users) == Seq::<u64>::empty(),
{
    lemma_sightings_are_kept(book, race, users);
    lemma_known_users_add_nothing(after_sightings(book, race, users), race, users);
}

/// The newcomers are users that were seen and were not in the book for the
/// race before, and nobody is among them twice.
pub proof fn lemma_newcomers_are_new(book: Seq<Sighting>, race: i64, users: Seq<u64>)
    ensures
        newly_seen(book, race, users).no_duplicates(),
        forall|u: u64| #[trigger]
            newly_seen(book, race, users).contains(u) <==> users.contains(u) && !book.contains(
                (race, u),
            ),
    decreases users.len(),
{
    let found = newly_seen(book, race, users);
    if users.len() == 0 {
        assert forall|u: u64| #[trigger] found.contains(u) <==> users.contains(u) && !book.contains(
            (race, u),
        ) by {
            if found.contains(u) {
                let k = choose|k: int| 0 <= k < found.len() && found[k] == u;
            }
            if users.contains(u) {
                let k = choose|k: int| 0 <= k < users.len() && users[k] == u;
            }
        }
    } else {
        let front = users.drop_last();
        let last = users[users.len() - 1];
        let earlier = after_sightings(book, race, front);
        let before = newly_seen(book, race, front);
        lemma_newcomers_are_new(book, race, front);
        lemma_sightings_are_kept(book, race, front);
        lemma_book_is_old_or_seen(book, race, front);
        assert forall|u: u64| #[trigger] found.contains(u) <==> users.contains(u) && !book.contains(
            (race, u),
        ) by {
            if found.contains(u) {
                let k = choose|k: int| 0 <= k < found.len() && found[k] == u;
                if k < before.len() {
                    assert(before[k] == u);
                    assert(before.contains(u));
                    assert(front.contains(u));
                    let m = choose|m: int| 0 <= m < front.len() && front[m] == u;
                    assert(users[m] == u);
                } else {
                    assert(u == last);
                    assert(users[users.len() - 1] == u);
                    assert(!earlier.contains((race, u)));
                }
            }
            if users.contains(u) && !book.contains((race, u)) {
                let m = choose|m: int| 0 <= m < users.len() && users[m] == u;
                if m < front.len() {
                    assert(front[m] == u);
                    assert(front.contains(u));
                    assert(before.contains(u));
                    let k = choose|k: int| 0 <= k < before.len() && before[k] == u;
                    assert(found[k] == u);
                } else if earlier.contains((race, u)) {
                    assert(front.contains(u));
                    assert(before.contains(u));
                    let k = choose|k: int| 0 <= k < before.len() && before[k] == u;
                    assert(found[k] == u);
                } else {
                    assert(found[found.len() - 1] == u);
                }
            }
        }
        assert forall|i: int, j: int| 0 <= i < found.len() && 0 <= j < found.len() && i
            != j implies found[i] != found[j] by {
            if i < before.len() && j < before.len() {
                assert(found[i] == before[i] && found[j] == before[j]);
            } else {
                let inside = if i < before.len() { i } else { j };
                assert(found[inside] == before[inside]);
                assert(before.contains(before[inside]));
                assert(front.contains(before[inside]));
                let m = choose|m: int| 0 <= m < front.len() && front[m] == before[inside];
                assert(earlier.contains((race, front[m])));
            }
        }
    }
}

/// Whoever is in the book for the race after users were seen was in it
/// before or is one of the users seen.
pub proof fn lemma_book_is_old_or_seen(book: Seq<Sighting>, race: i64, users: Seq<u64>)
    ensures
        forall|u: u64| #[trigger]
            after_sightings(book, race, users).contains((race, u)) ==> book.contains((race, u))
                || users.contains(u),
    decreases users.len(),
{
    let after = after_sightings(book, race, users);
    if users.len() > 0 {
        let front = users.drop_last();
        let earlier = after_sightings(book, race, front);
        lemma_book_is_old_or_seen(book, race, front);
        assert forall|u: u64| #[trigger] after.contains((race, u)) implies book.contains((race, u))
            || users.contains(u) by {
            let k = choose|k: int| 0 <= k < after.len() && after[k] == (race, u);
            if k < earlier.len() {
                assert(earlier[k] == (race, u));
                assert(earlier.contains((race, u)));
                if front.contains(u) {
                    let m = choose|m: int| 0 <= m < front.len() && front[m] == u;
                    assert(users[m] == u);
                }
            } else {
                assert(users[users.len() - 1] == u);
            }
        }
    }
}

} // verus!
