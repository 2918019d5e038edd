//! The race entity, its stored form, and the moves of its lifecycle.

use vstd::prelude::*;
use crate::clock::Instant;
use crate::state::{ParseError, RaceState};
use crate::state::lemma_spelled_literal;
use crate::text::{
    decimal_digits, decimal_u64, format_u64, lemma_decimal_round_trip, parse_u64, push_signed,
    signed_digits,
};

verus! {

/// What a race is, as contracts speak of it.
pub struct RaceModel {
    pub id: i64,
    pub game_id: i64,
    pub category_id: i64,
    pub state: RaceState,
    /// Scheduled start, in seconds since the Unix epoch.
    pub occurs: i64,
    /// The announcement on which people react to show interest.
    pub scheduling_message: Option<u64>,
    /// The confirmation message posted when the race became active.
    pub active_message: Option<u64>,
}

/// One scheduled community race.
///
/// The fields are reached through methods only, so that a race moves
/// forward along `SCHEDULED -> ACTIVE -> COMPLETED` and each of its two
/// message references is written once.
#[derive(Debug, Clone, Copy, PartialEq, Eq)]
pub struct Race {
    id: i64,
    game_id: i64,
    category_id: i64,
    state: RaceState,
    occurs: i64,
    scheduling_message_id: Option<u64>,
    active_message_id: Option<u64>,
}

/// A race as the store keeps it: the state under its spelling and the
/// message references as decimal text.
#[derive(Debug, Clone, PartialEq, Eq)]
pub struct RaceRecord {
    pub id: i64,
    pub game_id: i64,
    pub category_id: i64,
    pub state: String,
    pub occurs: i64,
    pub scheduling_message_id: Option<String>,
    pub active_message_id: Option<String>,
}

/// Why a move of the lifecycle was refused.
#[derive(Debug, Clone, Copy, PartialEq, Eq, Structural)]
pub enum TransitionError {
    /// Only a scheduled race can be activated.
    NotScheduled,
    /// Only an active race can be completed.
    NotActive,
}

/// The message reference that a stored text stands for: the number it
/// writes in decimal, or none where it writes no such number.
pub open spec fn stored_reference(text: Option<Seq<char>>) -> Option<u64> {
    match text {
        Some(t) => decimal_u64(t),
        None => None,
    }
}

/// The text under which a message reference is stored.
pub open spec fn reference_text(reference: Option<u64>) -> Option<Seq<char>> {
    match reference {
        Some(id) => Some(decimal_digits(id as nat)),
        None => None,
    }
}

pub open spec fn text_of(field: Option<String>) -> Option<Seq<char>> {
    match field {
        Some(s) => Some(s@),
        None => None,
    }
}

impl RaceRecord {
    /// The race that the record stands for, if its state is spelled right.
    pub open spec fn denotes(&self) -> Option<RaceModel> {
        match RaceState::spelled(self.state@) {
            Some(state) => Some(
                RaceModel {
                    id: self.id,
                    game_id: self.game_id,
                    category_id: self.category_id,
                    state,
                    occurs: self.occurs,
                    scheduling_message: stored_reference(text_of(self.scheduling_message_id)),
                    active_message: stored_reference(text_of(self.active_message_id)),
                },
            ),
            None => None,
        }
    }

    /// The record is the stored form of `race`.
    pub open spec fn stores(&self, race: RaceModel) -> bool {
        &&& self.id == race.id
        &&& self.game_id == race.game_id
        &&& self.category_id == race.category_id
        &&& self.state@ == race.state.literal()
        &&& self.occurs == race.occurs
        &&& text_of(self.scheduling_message_id) == reference_text(race.scheduling_message)
        &&& text_of(self.active_message_id) == reference_text(race.active_message)
    }
}

fn read_reference(field: &Option<String>) -> (reference: Option<u64>)
    ensures
        reference == stored_reference(text_of(*field)),
{
    match field {
        Some(text) => parse_u64(text.as_str()),
        None => None,
    }
}

fn write_reference(reference: Option<u64>) -> (field: Option<String>)
    ensures
        text_of(field) == reference_text(reference),
{
    match reference {
        Some(id) => Some(format_u64(id)),
        None => None,
    }
}

impl View for Race {
    type V = RaceModel;

    closed spec fn view(&self) -> RaceModel {
        RaceModel {
            id: self.id,
            game_id: self.game_id,
            category_id: self.category_id,
            state: self.state,
            occurs: self.occurs,
            scheduling_message: self.scheduling_message_id,
            active_message: self.active_message_id,
        }
    }
}

impl Race {
    /// Creates a new race with the initial parameters. Does not persist.
    /// State will be set to SCHEDULED.
    pub fn new(id: i64, game_id: i64, category_id: i64, occurs: &Instant) -> (race: Race)
        ensures
            race@ == (RaceModel {
                id,
                game_id,
                category_id,
                state: RaceState::SCHEDULED,
                occurs: occurs.epoch_seconds(),
                scheduling_message: None,
                active_message: None,
            }),
    {
        Race {
            id,
            game_id,
            category_id,
            state: RaceState::SCHEDULED,
            occurs: occurs.timestamp(),
            scheduling_message_id: None,
            active_message_id: None,
        }
    }

    /// Reads a race from its stored form. A state that is none of the three
    /// spellings is an error; a message reference that is no decimal number
    /// reads as absent.
    pub fn from_record(record: &RaceRecord) -> (loaded: Result<Race, ParseError>)
        ensures
            match loaded {
                Ok(race) => record.denotes() == Some(race@),
                Err(_) => record.denotes() is None,
            },
    {
        match RaceState::from_str(record.state.as_str()) {
            Ok(state) => Ok(
                Race {
                    id: record.id,
                    game_id: record.game_id,
                    category_id: record.category_id,
                    state,
                    occurs: record.occurs,
                    scheduling_message_id: read_reference(&record.scheduling_message_id),
                    active_message_id: read_reference(&record.active_message_id),
                },
            ),
            Err(e) => Err(e),
        }
    }

    /// The stored form of the race.
    pub fn to_record(&self) -> (record: RaceRecord)
        ensures
            record.stores(self@),
    {
        RaceRecord {
            id: self.id,
            game_id: self.game_id,
            category_id: self.category_id,
            state: self.state.to_string(),
            occurs: self.occurs,
            scheduling_message_id: write_reference(self.scheduling_message_id),
            active_message_id: write_reference(self.active_message_id),
        }
    }

    pub fn id(&self) -> (id: i64)
        ensures
            id == self@.id,
    {
        self.id
    }

    /// The race as it is named in messages and logs: `Race #` and its id.
    pub fn to_string(&self) -> (label: String)
        ensures
            label@ == "Race #"@ + signed_digits(self@.id as int),
    {
        let mut label = "Race #".to_owned();
        push_signed(&mut label, self.id);
        label
    }

    pub fn game_id(&self) -> (id: i64)
        ensures
            id == self@.game_id,
    {
        self.game_id
    }

    pub fn category_id(&self) -> (id: i64)
        ensures
            id == self@.category_id,
    {
        self.category_id
    }

    /// Scheduled start, in seconds since the Unix epoch.
    pub fn occurs(&self) -> (seconds: i64)
        ensures
            seconds == self@.occurs,
    {
        self.occurs
    }

    pub fn get_scheduling_message_id(&self) -> (reference: Option<u64>)
        ensures
            reference == self@.scheduling_message,
    {
        self.scheduling_message_id
    }

    /// Records the announcement of the race. The reference is written once:
    /// a race that already has one keeps it.
    pub fn set_scheduling_message_id(&mut self, id: u64)
        ensures
            final(self)@ == (RaceModel {
                scheduling_message: if old(self)@.scheduling_message is None {
                    Some(id)
                } else {
                    old(self)@.scheduling_message
                },
                ..old(self)@
            }),
    {
        if self.scheduling_message_id.is_none() {
            self.scheduling_message_id = Some(id);
        }
    }

    pub fn get_active_message_id(&self) -> (reference: Option<u64>)
        ensures
            reference == self@.active_message,
    {
        self.active_message_id
    }

    /// Records the confirmation message of the race. The reference is
    /// written once: a race that already has one keeps it.
    pub fn set_active_message_id(&mut self, id: u64)
        ensures
            final(self)@ == (RaceModel {
                active_message: if old(self)@.active_message is None {
                    Some(id)
                } else {
                    old(self)@.active_message
                },
                ..old(self)@
            }),
    {
        if self.active_message_id.is_none() {
            self.active_message_id = Some(id);
        }
    }

    /// The scheduled start with its Eastern wall-clock reading, where chrono
    /// can represent it.
    pub fn get_occurs(&self) -> (occurs: Option<Instant>)
        ensures
            match occurs {
                Some(i) => i.epoch_seconds() == self@.occurs && i.wf(),
                None => crate::clock::eastern_wall_clock(self@.occurs) is None,
            },
    {
        Instant::at(self.occurs)
    }

    pub fn set_occurs(&mut self, occurs: &Instant)
        ensures
            final(self)@ == (RaceModel { occurs: occurs.epoch_seconds(), ..old(self)@ }),
    {
        self.occurs = occurs.timestamp();
    }

    pub fn get_state(&self) -> (state: RaceState)
        ensures
            state == self@.state,
    {
        self.state
    }

    /// Moves the race to `state` where that is a legal move; any other
    /// request leaves the race as it is.
    pub fn set_state(&mut self, state: RaceState)
        ensures
            final(self)@ == (RaceModel {
                state: if old(self)@.state.may_become(state) {
                    state
                } else {
                    old(self)@.state
                },
                ..old(self)@
            }),
    {
        if self.state.can_become(state) {
            self.state = state;
        }
    }

    /// `SCHEDULED -> ACTIVE`: records the confirmation message and makes the
    /// race active. A race in any other state is left as it is.
    pub fn activate(&mut self, confirmation: u64) -> (moved: Result<(), TransitionError>)
        ensures
            old(self)@.state == RaceState::SCHEDULED ==> moved is Ok && final(self)@ == (RaceModel {
                state: RaceState::ACTIVE,
                active_message: if old(self)@.active_message is None {
                    Some(confirmation)
                } else {
                    old(self)@.active_message
                },
                ..old(self)@
            }),
            old(self)@.state != RaceState::SCHEDULED ==> moved == Err::<(), TransitionError>(
                TransitionError::NotScheduled,
            ) && final(self)@ == old(self)@,
    {
        match self.state {
            RaceState::SCHEDULED => {
                self.set_active_message_id(confirmation);
                self.state = RaceState::ACTIVE;
                Ok(())
            },
            _ => Err(TransitionError::NotScheduled),
        }
    }

    /// `ACTIVE -> COMPLETED`. A race in any other state is left as it is.
    pub fn complete(&mut self) -> (moved: Result<(), TransitionError>)
        ensures
            old(self)@.state == RaceState::ACTIVE ==> moved is Ok && final(self)@ == (RaceModel {
                state: RaceState::COMPLETED,
                ..old(self)@
            }),
            old(self)@.state != RaceState::ACTIVE ==> moved == Err::<(), TransitionError>(
                TransitionError::NotActive,
            ) && final(self)@ == old(self)@,
    {
        match self.state {
            RaceState::ACTIVE => {
                self.state = RaceState::COMPLETED;
                Ok(())
            },
            _ => Err(TransitionError::NotActive),
        }
    }
}

/// A race read back from its own stored form is the race that was stored.
pub proof fn lemma_record_round_trip(record: RaceRecord, race: RaceModel)
    requires
        record.stores(race),
    ensures
        record.denotes() == Some(race),
{
    lemma_spelled_literal(race.state);
    if let Some(id) = race.scheduling_message {
        lemma_decimal_round_trip(id);
    }
    if let Some(id) = race.active_message {
        lemma_decimal_round_trip(id);
    }
}

/// The lifecycle never runs backwards: whatever state is asked for, the
/// state that `set_state` leaves behind is the old one or the next one.
pub proof fn lemma_set_state_goes_forward(before: RaceState, asked: RaceState)
    ensures
        ({
            let after = if before.may_become(asked) {
                asked
            } else {
                before
            };
            &&& before.rank() <= after.rank()
            &&& before == RaceState::COMPLETED ==> after == RaceState::COMPLETED
            &&& before != RaceState::SCHEDULED ==> after != RaceState::SCHEDULED
        }),
{
}

/// One request made of a race through its methods.
#[derive(Debug, Clone, Copy, PartialEq, Eq, Structural)]
pub enum Move {
    SetState(RaceState),
    Activate(u64),
    Complete,
    SetSchedulingMessage(u64),
    SetActiveMessage(u64),
}

/// Keeps a reference that is already there; fills an empty one.
pub open spec fn written_once(current: Option<u64>, id: u64) -> Option<u64> {
    if current is None {
        Some(id)
    } else {
        current
    }
}

/// The race after one request.
pub open spec fn after_move(race: RaceModel, request: Move) -> RaceModel {
    match request {
        Move::SetState(state) => if race.state.may_become(state) {
            RaceModel { state, ..race }
        } else {
            race
        },
        Move::Activate(confirmation) => if race.state == RaceState::SCHEDULED {
            RaceModel {
                state: RaceState::ACTIVE,
                active_message: written_once(race.active_message, confirmation),
                ..race
            }
        } else {
            race
        },
        Move::Complete => if race.state == RaceState::ACTIVE {
            RaceModel { state: RaceState::COMPLETED, ..race }
        } else {
            race
        },
        Move::SetSchedulingMessage(id) => RaceModel {
            scheduling_message: written_once(race.scheduling_message, id),
            ..race
        },
        Move::SetActiveMessage(id) => RaceModel {
            active_message: written_once(race.active_message, id),
            ..race
        },
    }
}

/// The race after a run of requests, made one after the other.
pub open spec fn after_moves(race: RaceModel, requests: Seq<Move>) -> RaceModel
    decreases requests.len(),
{
    if requests.len() == 0 {
        race
    } else {
        after_move(after_moves(race, requests.drop_last()), requests.last())
    }
}

impl Race {
    /// Makes one request of the race, through the method that serves it.
    pub fn perform(&mut self, request: Move)
        ensures
            final(self)@ == after_move(old(self)@, request),
    {
        match request {
            Move::SetState(state) => self.set_state(state),
            Move::Activate(confirmation) => {
                let _ = self.activate(confirmation);
            },
            Move::Complete => {
                let _ = self.complete();
            },
            Move::SetSchedulingMessage(id) => self.set_scheduling_message_id(id),
            Move::SetActiveMessage(id) => self.set_active_message_id(id),
        }
    }
}

/// Whatever is asked of a race, and in whatever order: its state never moves
/// back, a completed race stays completed, no race becomes scheduled again,
/// its id stays, and a message reference that was written stays as written.
pub proof fn lemma_lifecycle_is_one_way(race: RaceModel, requests: Seq<Move>)
    ensures
        race.state.rank() <= after_moves(race, requests).state.rank(),
        race.state == RaceState::COMPLETED ==> after_moves(race, requests).state
            == RaceState::COMPLETED,
        race.state != RaceState::SCHEDULED ==> after_moves(race, requests).state
            != RaceState::SCHEDULED,
        after_moves(race, requests).id == race.id,
        race.scheduling_message is Some ==> after_moves(race, requests).scheduling_message
            == race.scheduling_message,
        race.active_message is Some ==> after_moves(race, requests).active_message
            == race.active_message,
    decreases requests.len(),
{
    if requests.len() > 0 {
        lemma_lifecycle_is_one_way(race, requests.drop_last());
    }
}

} // verus!
