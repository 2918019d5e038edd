//! The three lifecycle states of a race and their stored spelling.

use vstd::prelude::*;
use crate::text::str_eq;

verus! {

/// Where a race stands in its lifecycle. A race only ever moves
/// `SCHEDULED -> ACTIVE -> COMPLETED`.
#[derive(Debug, Clone, Copy, PartialEq, Eq, Structural)]
pub enum RaceState {
    SCHEDULED,
    ACTIVE,
    COMPLETED,
}

/// A stored state that is none of the three known spellings.
#[derive(Debug, Clone, Copy, PartialEq, Eq, Structural)]
pub struct ParseError;

impl ParseError {
    /// The words of the error.
    pub fn to_string(&self) -> (text: String)
        ensures
            text@ == "Parse error"@,
    {
        "Parse error".to_owned()
    }
}

impl RaceState {
    /// Position of the state along the lifecycle.
    pub open spec fn rank(self) -> nat {
        match self {
            RaceState::SCHEDULED => 0,
            RaceState::ACTIVE => 1,
            RaceState::COMPLETED => 2,
        }
    }

    /// The spelling under which the state is stored.
    pub open spec fn literal(self) -> Seq<char> {
        match self {
            RaceState::SCHEDULED => "SCHEDULED"@,
            RaceState::ACTIVE => "ACTIVE"@,
            RaceState::COMPLETED => "COMPLETED"@,
        }
    }

    /// The only legal moves: one step forward along the lifecycle.
    pub open spec fn may_become(self, next: RaceState) -> bool {
        next.rank() == self.rank() + 1
    }

    /// Whether a race in this state may move to `next`.
    pub fn can_become(&self, next: RaceState) -> (legal: bool)
        ensures
            legal == self.may_become(next),
    {
        match (self, next) {
            (RaceState::SCHEDULED, RaceState::ACTIVE) => true,
            (RaceState::ACTIVE, RaceState::COMPLETED) => true,
            _ => false,
        }
    }

    pub fn as_str(&self) -> (text: &'static str)
        ensures
            text@ == self.literal(),
    {
        match self {
            RaceState::SCHEDULED => "SCHEDULED",
            RaceState::ACTIVE => "ACTIVE",
            RaceState::COMPLETED => "COMPLETED",
        }
    }

    /// The state that a stored spelling stands for.
    pub open spec fn spelled(s: Seq<char>) -> Option<RaceState> {
        if s == RaceState::SCHEDULED.literal() {
            Some(RaceState::SCHEDULED)
        } else if s == RaceState::ACTIVE.literal() {
            Some(RaceState::ACTIVE)
        } else if s == RaceState::COMPLETED.literal() {
            Some(RaceState::COMPLETED)
        } else {
            None
        }
    }

    pub fn to_string(&self) -> (text: String)
        ensures
            text@ == self.literal(),
    {
        self.as_str().to_owned()
    }

    pub fn from_str(s: &str) -> (parsed: Result<RaceState, ParseError>)
        ensures
            parsed == match RaceState::spelled(s@) {
                Some(state) => Ok::<RaceState, ParseError>(state),
                None => Err(ParseError),
            },
    {
        if str_eq(s, "SCHEDULED") {
            Ok(RaceState::SCHEDULED)
        } else if str_eq(s, "ACTIVE") {
            Ok(RaceState::ACTIVE)
        } else if str_eq(s, "COMPLETED") {
            Ok(RaceState::COMPLETED)
        } else {
            Err(ParseError)
        }
    }
}

/// The three spellings differ, so each state is read back from its own.
pub proof fn lemma_spelled_literal(state: RaceState)
    ensures
        RaceState::spelled(state.literal()) == Some(state),
{
    reveal_strlit("SCHEDULED");
    reveal_strlit("ACTIVE");
    reveal_strlit("COMPLETED");
    assert("SCHEDULED"@.len() == 9);
    assert("ACTIVE"@.len() == 6);
    assert("COMPLETED"@.len() == 9);
    assert("SCHEDULED"@[0] == 'S');
    assert("COMPLETED"@[0] == 'C');
}

/// States only ever advance: a legal move raises the rank by one, so no
/// chain of legal moves leads back to an earlier state.
pub proof fn lemma_moves_go_forward(from: RaceState, to: RaceState)
    requires
        from.may_become(to),
    ensures
        from.rank() < to.rank(),
        from != RaceState::COMPLETED,
        to != RaceState::SCHEDULED,
{
}

} // verus!
