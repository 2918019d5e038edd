//! Completion of a race on an operator's request.

use vstd::prelude::*;
use crate::race::Race;
use crate::state::RaceState;

verus! {

/// Why a request to complete a race changed nothing.
#[derive(Debug, Clone, Copy, PartialEq, Eq, Structural)]
pub enum CompletionError {
    /// No race has the id asked for, or no race is active.
    NoValidRace,
    /// The race asked for is not active.
    NotActive,
    /// More than one race is active, and the request named none.
    Ambiguous,
}

impl CompletionError {
    pub open spec fn text(self) -> Seq<char> {
        match self {
            CompletionError::NoValidRace => "no valid race found"@,
            CompletionError::NotActive => "not currently active"@,
            CompletionError::Ambiguous => "more than one race is active"@,
        }
    }

    /// The words in which the refusal is reported.
    pub fn message(&self) -> (text: &'static str)
        ensures
            text@ == self.text(),
    {
        match self {
            CompletionError::NoValidRace => "no valid race found",
            CompletionError::NotActive => "not currently active",
            CompletionError::Ambiguous => "more than one race is active",
        }
    }
}

/// The words in which a request to complete a race is answered.
pub fn completion_reply(done: &Result<usize, CompletionError>) -> (reply: &'static str)
    ensures
        reply@ == match *done {
            Ok(_) => "Race completed!"@,
            Err(e) => e.text(),
        },
{
    match done {
        Ok(_) => "Race completed!",
        Err(e) => e.message(),
    }
}

/// `i` is the position of the first race with the given id.
pub open spec fn first_with_id(races: Seq<Race>, id: i64, i: int) -> bool {
    &&& 0 <= i < races.len()
    &&& races[i]@.id == id
    &&& forall|j: int| 0 <= j < i ==> (#[trigger] races[j])@.id != id
}

/// `i` is the position of the one race that is active.
pub open spec fn only_active(races: Seq<Race>, i: int) -> bool {
    &&& 0 <= i < races.len()
    &&& races[i]@.state == RaceState::ACTIVE
    &&& forall|j: int| 0 <= j < races.len() && j != i ==> (#[trigger] races[j])@.state != RaceState::ACTIVE
}

pub open spec fn none_active(races: Seq<Race>) -> bool {
    forall|j: int| 0 <= j < races.len() ==> (#[trigger] races[j])@.state != RaceState::ACTIVE
}

pub open spec fn several_active(races: Seq<Race>) -> bool {
    exists|i: int, j: int|
        0 <= i < j < races.len() && (#[trigger] races[i])@.state == RaceState::ACTIVE && (
        #[trigger] races[j])@.state == RaceState::ACTIVE
}

/// The races with the one at position `i` completed and nothing else
/// touched.
pub open spec fn completed_at(before: Seq<Race>, after: Seq<Race>, i: int) -> bool {
    &&& after.len() == before.len()
    &&& after[i]@ == (crate::race::RaceModel { state: RaceState::COMPLETED, ..before[i]@ })
    &&& forall|j: int| 0 <= j < before.len() && j != i ==> #[trigger] after[j] == before[j]
}

fn find_by_id(races: &Vec<Race>, id: i64) -> (found: Option<usize>)
    ensures
        match found {
            Some(i) => first_with_id(races@, id, i as int),
            None => forall|j: int| 0 <= j < races.len() ==> (#[trigger] races[j])@.id != id,
        },
{
    let mut i: usize = 0;
    while i < races.len()
        invariant
            i <= races.len(),
            forall|j: int| 0 <= j < i ==> (#[trigger] races[j])@.id != id,
        decreases races.len() - i,
    {
        if races[i].id() == id {
            return Some(i);
        }
        i += 1;
    }
    None
}

/// Completes the race with the given id among `races`.
///
/// A race that is active becomes completed and its position is handed back,
/// so that it can be persisted. Where no race has the id, or the race is not
/// active, nothing is changed and the refusal says which.
pub fn complete_by_id(races: &mut Vec<Race>, id: i64) -> (done: Result<usize, CompletionError>)
    ensures
        match done {
            Ok(i) => {
                &&& first_with_id(old(races)@, id, i as int)
                &&& old(races)@[i as int]@.state == RaceState::ACTIVE
                &&& completed_at(old(races)@, final(races)@, i as int)
            },
            Err(CompletionError::NoValidRace) => {
                &&& forall|j: int| 0 <= j < old(races)@.len() ==> (#[trigger] old(races)@[j])@.id != id
                &&& final(races)@ == old(races)@
            },
            Err(CompletionError::NotActive) => {
                &&& exists|i: int| first_with_id(old(races)@, id, i) && old(races)@[i]@.state != RaceState::ACTIVE
                &&& final(races)@ == old(races)@
            },
            Err(CompletionError::Ambiguous) => false,
        },
{
    match find_by_id(races, id) {
        None => Err(CompletionError::NoValidRace),
        Some(i) => {
            let mut race = races[i];
            match race.complete() {
                Ok(()) => {
                    races.set(i, race);
                    Ok(i)
                },
                Err(_) => Err(CompletionError::NotActive),
            }
        },
    }
}

/// Completes "the current race": the one race among `races` that is active.
///
/// With exactly one active race, that race becomes completed and its
/// position is handed back. With none, or with more than one, nothing is
/// changed and the refusal says which.
pub fn complete_current(races: &mut Vec<Race>) -> (done: Result<usize, CompletionError>)
    ensures
        match done {
            Ok(i) => {
                &&& only_active(old(races)@, i as int)
                &&& completed_at(old(races)@, final(races)@, i as int)
            },
            Err(CompletionError::NoValidRace) => {
                &&& none_active(old(races)@)
                &&& final(races)@ == old(races)@
            },
            Err(CompletionError::Ambiguous) => {
                &&& several_active(old(races)@)
                &&& final(races)@ == old(races)@
            },
            Err(CompletionError::NotActive) => false,
        },
{
    let mut found: Option<usize> = None;
    let mut i: usize = 0;
    while i < races.len()
        invariant
            i <= races.len(),
            races@ == old(races)@,
            match found {
                Some(k) => {
                    &&& k < i
                    &&& races[k as int]@.state == RaceState::ACTIVE
                    &&& forall|j: int| 0 <= j < i && j != k ==> (#[trigger] races[j])@.state != RaceState::ACTIVE
                },
                None => forall|j: int| 0 <= j < i ==> (#[trigger] races[j])@.state != RaceState::ACTIVE,
            },
        decreases races.len() - i,
    {
        match races[i].get_state() {
            RaceState::ACTIVE => {
                match found {
                    Some(k) => {
                        assert(races[k as int]@.state == RaceState::ACTIVE && races[i as int]@.state
                            == RaceState::ACTIVE);
                        return Err(CompletionError::Ambiguous);
                    },
                    None => {
                        found = Some(i);
                    },
                }
            },
            _ => {},
        }
        i += 1;
    }
    match found {
        None => Err(CompletionError::NoValidRace),
        Some(k) => {
            let mut race = races[k];
            let _ = race.complete();
            races.set(k, race);
            Ok(k)
        },
    }
}

} // verus!
