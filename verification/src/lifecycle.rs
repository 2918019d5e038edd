//! One race at one tick, step by step.
//!
//! The loop outside this library does what it is told and reports what came
//! of it; `advance` takes the report and tells the next thing to do. That
//! keeps the order of the side effects, and what is remembered when one of
//! them fails, in one place.

use vstd::prelude::*;
use crate::cache::{schedule_for, used, without};
use crate::engine::{
    activation_of, active_of, others, overdue, ActivationStep, ActiveStep, Engine,
};
use crate::nag::{after_look, fires, minutes_between};
use crate::race::{written_once, Race, RaceModel};
use crate::roster::{after_sightings, members_of, newly_seen, without_race};
use crate::state::RaceState;

verus! {

/// The two passes of a tick.
#[derive(Debug, Clone, Copy, PartialEq, Eq, Structural)]
pub enum Pass {
    /// Over the scheduled races whose start is in the look-ahead window.
    Upcoming,
    /// Over the active races.
    Active,
}

/// How far the work on a race has come within a tick.
#[derive(Debug, Clone, Copy, PartialEq, Eq, Structural)]
pub enum Stage {
    /// Nothing is under way.
    Idle,
    /// The reactions to the announcement are being read.
    AwaitingInterested,
    /// The confirmation message is being posted.
    AwaitingPost,
    /// The bot's own reaction to the confirmation message is being added.
    AwaitingReaction { posted: u64 },
    /// The reactions to the confirmation message are being read.
    AwaitingConfirmed,
}

/// What the loop reports.
#[derive(Debug, Clone, PartialEq, Eq)]
pub enum Event {
    /// The pass has come to the race.
    Begin(Pass),
    /// The users that reacted, as asked for.
    Reactors(Vec<u64>),
    /// The confirmation message was posted under this id.
    Posted(u64),
    /// The reaction was added.
    Reacted,
    /// What was asked for could not be done.
    Failed,
}

/// What the loop is to do next.
#[derive(Debug, Clone, PartialEq, Eq)]
pub enum Action {
    /// Nothing more for this race at this tick.
    Rest,
    /// Read who reacted as interested to the announcement; report
    /// `Reactors`.
    ReadInterested { message: u64 },
    /// Give the unconfirmed role to the newcomers, as far as that works,
    /// and post the confirmation message; report `Posted`.
    Welcome { newcomers: Vec<u64> },
    /// React to the confirmation message as the bot; report `Reacted`.
    React { posted: u64 },
    /// Store the race, which is active now.
    StoreActivated,
    /// Read who reacted as confirming to the confirmation message; report
    /// `Reactors`.
    ReadConfirmed { message: u64 },
    /// Swap the unconfirmed role of the confirmed users for the confirmed
    /// one, and nag about the threshold if there is one.
    Acknowledge { confirmed: Vec<u64>, nag: Option<i64> },
    /// Take both roles from the participants, as far as that works, and
    /// store the race, which is completed now.
    Retire { participants: Vec<u64> },
}

/// Nothing is remembered differently and the race is as it was.
pub open spec fn untouched(e0: Engine, e1: Engine, r0: RaceModel, r1: RaceModel) -> bool {
    &&& e1.roster() == e0.roster()
    &&& e1.nags() == e0.nags()
    &&& r1 == r0
}

/// The step taken from a stage on an event: the stage and the action that
/// follow, what the engine remembers after it, and how the race has changed.
pub open spec fn advances(
    e0: Engine,
    e1: Engine,
    r0: RaceModel,
    r1: RaceModel,
    stage: Stage,
    event: Event,
    now: int,
    own_id: u64,
    next: Stage,
    action: Action,
) -> bool {
    match (stage, event) {
        (Stage::Idle, Event::Begin(Pass::Upcoming)) => {
            &&& untouched(e0, e1, r0, r1)
            &&& match activation_of(r0, now, e0.look_ahead()) {
                ActivationStep::ReadInterested { message } => next == Stage::AwaitingInterested
                    && action == (Action::ReadInterested { message }),
                _ => next == Stage::Idle && action == Action::Rest,
            }
        },
        (Stage::AwaitingInterested, Event::Reactors(users)) => {
            &&& next == Stage::AwaitingPost
            &&& action matches Action::Welcome { newcomers }
            &&& newcomers@ == newly_seen(e0.roster(), r0.id, users@)
            &&& e1.roster() == after_sightings(e0.roster(), r0.id, users@)
            &&& e1.nags() == e0.nags()
            &&& r1 == r0
        },
        (Stage::AwaitingPost, Event::Posted(id)) => {
            &&& untouched(e0, e1, r0, r1)
            &&& next == (Stage::AwaitingReaction { posted: id })
            &&& action == (Action::React { posted: id })
        },
        (Stage::AwaitingReaction { posted }, Event::Reacted) => {
            &&& e1.roster() == e0.roster()
            &&& e1.nags() == e0.nags()
            &&& next == Stage::Idle
            &&& if r0.state == RaceState::SCHEDULED {
                &&& action == Action::StoreActivated
                &&& r1 == (RaceModel {
                    state: RaceState::ACTIVE,
                    active_message: written_once(r0.active_message, posted),
                    ..r0
                })
            } else {
                action == Action::Rest && r1 == r0
            }
        },
        (Stage::Idle, Event::Begin(Pass::Active)) => {
            match active_of(r0, now, e0.grace()) {
                ActiveStep::ReadConfirmed { message } => {
                    &&& untouched(e0, e1, r0, r1)
                    &&& next == Stage::AwaitingConfirmed
                    &&& action == (Action::ReadConfirmed { message })
                },
                ActiveStep::Complete => {
                    &&& next == Stage::Idle
                    &&& action matches Action::Retire { participants }
                    &&& participants@ == members_of(e0.roster(), r0.id)
                    &&& e1.roster() == without_race(e0.roster(), r0.id)
                    &&& e1.nags() == without(e0.nags(), r0.id)
                    &&& r1 == (RaceModel { state: RaceState::COMPLETED, ..r0 })
                },
                _ => untouched(e0, e1, r0, r1) && next == Stage::Idle && action == Action::Rest,
            }
        },
        (Stage::AwaitingConfirmed, Event::Reactors(users)) => {
            let minutes = minutes_between(r0.occurs as int, now);
            let schedule = schedule_for(e0.nags(), r0.id, e0.thresholds(), minutes);
            &&& next == Stage::Idle
            &&& r1 == r0
            &&& action matches Action::Acknowledge { confirmed, nag }
            &&& confirmed@ == others(users@, own_id)
            &&& e1.roster() == after_sightings(e0.roster(), r0.id, others(users@, own_id))
            &&& if r0.state == RaceState::ACTIVE && !overdue(r0.occurs as int, now, e0.grace()) {
                &&& nag == fires(schedule, minutes)
                &&& e1.nags() == used(
                    e0.nags(),
                    r0.id,
                    after_look(schedule, minutes),
                    e0.nag_limit(),
                )
            } else {
                nag is None && e1.nags() == e0.nags()
            }
        },
        _ => untouched(e0, e1, r0, r1) && next == Stage::Idle && action == Action::Rest,
    }
}

/// Takes the loop's report on a race and tells what to do next.
///
/// The activation of a race runs through reading the interested, welcoming
/// the newcomers with the confirmation message, and reacting to that
/// message; only then does the race become active and is it stored. A
/// failure on the way, or a report that does not fit the stage, drops the
/// work for this tick and leaves the race as it was, to be taken up again at
/// the next.
pub fn advance(
    engine: &mut Engine,
    race: &mut Race,
    stage: Stage,
    event: Event,
    now: i64,
    own_id: u64,
) -> (step: (Stage, Action))
    requires
        old(engine).wf(),
    ensures
        final(engine).wf(),
        final(engine).interval() == old(engine).interval(),
        final(engine).look_ahead() == old(engine).look_ahead(),
        final(engine).grace() == old(engine).grace(),
        final(engine).thresholds() == old(engine).thresholds(),
        final(engine).nag_limit() == old(engine).nag_limit(),
        advances(
            *old(engine),
            *final(engine),
            old(race)@,
            final(race)@,
            stage,
            event,
            now as int,
            own_id,
            step.0,
            step.1,
        ),
{
    match (stage, event) {
        (Stage::Idle, Event::Begin(Pass::Upcoming)) => {
            match engine.activation_step(race, now) {
                ActivationStep::ReadInterested { message } => (
                    Stage::AwaitingInterested,
                    Action::ReadInterested { message },
                ),
                _ => (Stage::Idle, Action::Rest),
            }
        },
        (Stage::AwaitingInterested, Event::Reactors(users)) => {
            let newcomers = engine.admit_interested(race, &users);
            (Stage::AwaitingPost, Action::Welcome { newcomers })
        },
        (Stage::AwaitingPost, Event::Posted(id)) => (
            Stage::AwaitingReaction { posted: id },
            Action::React { posted: id },
        ),
        (Stage::AwaitingReaction { posted }, Event::Reacted) => {
            match race.activate(posted) {
                Ok(()) => (Stage::Idle, Action::StoreActivated),
                Err(_) => (Stage::Idle, Action::Rest),
            }
        },
        (Stage::Idle, Event::Begin(Pass::Active)) => {
            match engine.active_step(race, now) {
                ActiveStep::ReadConfirmed { message } => (
                    Stage::AwaitingConfirmed,
                    Action::ReadConfirmed { message },
                ),
                ActiveStep::Complete => {
                    match engine.finish(race) {
                        Ok(participants) => (Stage::Idle, Action::Retire { participants }),
                        Err(_) => (Stage::Idle, Action::Rest),
                    }
                },
                _ => (Stage::Idle, Action::Rest),
            }
        },
        (Stage::AwaitingConfirmed, Event::Reactors(users)) => {
            let confirmed = engine.confirm(race, &users, own_id);
            let nag = engine.nag(race, now);
            (Stage::Idle, Action::Acknowledge { confirmed, nag })
        },
        _ => (Stage::Idle, Action::Rest),
    }
}

/// A failure drops the work on a race for the tick: nothing is remembered
/// differently, the race is as it was, and there is nothing more to do.
pub proof fn lemma_failure_changes_nothing(
    e0: Engine,
    e1: Engine,
    r0: RaceModel,
    r1: RaceModel,
    stage: Stage,
    now: int,
    own_id: u64,
    next: Stage,
    action: Action,
)
    requires
        advances(e0, e1, r0, r1, stage, Event::Failed, now, own_id, next, action),
    ensures
        untouched(e0, e1, r0, r1),
        next == Stage::Idle,
        action == Action::Rest,
{
}

/// A race is to be stored as active only when the whole of its activation
/// went through: the step that asks for it is the one that takes the report
/// of the bot's reaction to the confirmation message, for a race that was
/// still scheduled. No other step of the activation changes the race.
pub proof fn lemma_activation_is_stored_last(
    e0: Engine,
    e1: Engine,
    r0: RaceModel,
    r1: RaceModel,
    stage: Stage,
    event: Event,
    now: int,
    own_id: u64,
    next: Stage,
    action: Action,
)
    requires
        advances(e0, e1, r0, r1, stage, event, now, own_id, next, action),
    ensures
        action == Action::StoreActivated ==> stage is AwaitingReaction && event == Event::Reacted
            && r0.state == RaceState::SCHEDULED && r1.state == RaceState::ACTIVE,
        r1.state != r0.state ==> action == Action::StoreActivated || action is Retire,
        r0.state.rank() <= r1.state.rank(),
        r1.id == r0.id,
{
}

} // verus!
