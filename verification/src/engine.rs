//! The decisions of the scheduler loop.
//!
//! The loop itself talks to the chat platform and to the store, and lives
//! outside this library. At each step of a tick it asks the engine what to do
//! next for one race, does it, and hands back what came of it. The engine
//! owns the two things the loop has to remember between ticks: the reminder
//! schedules and the roster of participants.

use vstd::prelude::*;
use crate::cache::{schedule_for, used, without, NagCache, Slot};
use crate::nag::{
    after_look, fires, is_strictly_descending, minutes_between, minutes_until_start,
    strictly_descending,
};
use crate::race::{Race, RaceModel, TransitionError};
use crate::roster::{after_sightings, members_of, newly_seen, without_race, Roster, Sighting};
use crate::state::RaceState;

verus! {

/// The settings of the scheduler loop.
#[derive(Debug, Clone, PartialEq, Eq)]
pub struct EngineConfig {
    /// Seconds between two ticks.
    pub poll_interval_secs: u64,
    /// How far ahead of its start a scheduled race is activated, in seconds.
    pub look_ahead_secs: i64,
    /// How long after its start an active race is completed, in minutes.
    pub grace_minutes: i64,
    /// Minutes before the start at which to nag, largest first.
    pub thresholds: Vec<i64>,
    /// How many reminder schedules are kept at once.
    pub cache_capacity: usize,
}

impl EngineConfig {
    /// Settings an engine can run on.
    pub open spec fn valid(&self) -> bool {
        &&& self.poll_interval_secs > 0
        &&& self.look_ahead_secs >= 0
        &&& self.grace_minutes >= 0
        &&& strictly_descending(self.thresholds@)
    }

    pub fn is_valid(&self) -> (valid: bool)
        ensures
            valid == self.valid(),
    {
        self.poll_interval_secs > 0 && self.look_ahead_secs >= 0 && self.grace_minutes >= 0
            && is_strictly_descending(&self.thresholds)
    }

    /// A tick every minute, activation half an hour ahead, completion two
    /// hours after the start, nags at 60, 30 and 15 minutes, and room for a
    /// hundred schedules.
    pub fn standard() -> (config: EngineConfig)
        ensures
            config.valid(),
            config.poll_interval_secs == 60,
            config.look_ahead_secs == 1800,
            config.grace_minutes == 120,
            config.thresholds@ == seq![60i64, 30i64, 15i64],
            config.cache_capacity == 100,
    {
        let mut thresholds: Vec<i64> = Vec::new();
        thresholds.push(60);
        thresholds.push(30);
        thresholds.push(15);
        assert(thresholds@ =~= seq![60i64, 30i64, 15i64]);
        EngineConfig {
            poll_interval_secs: 60,
            look_ahead_secs: 1800,
            grace_minutes: 120,
            thresholds,
            cache_capacity: 100,
        }
    }
}

/// The start lies in the window `[now, now + look_ahead)`.
pub open spec fn in_window(occurs: int, now: int, look_ahead: int) -> bool {
    now <= occurs < now + look_ahead
}

/// The start lies further back than the grace period.
pub open spec fn overdue(occurs: int, now: int, grace: int) -> bool {
    now - occurs > grace
}

/// A scheduled race whose start has come into the look-ahead window.
pub open spec fn due_for_activation(race: RaceModel, now: int, look_ahead: int) -> bool {
    race.state == RaceState::SCHEDULED && in_window(race.occurs as int, now, look_ahead)
}

/// What the loop is to do next about activating a race.
#[derive(Debug, Clone, Copy, PartialEq, Eq, Structural)]
pub enum ActivationStep {
    /// Nothing: the race is not scheduled any more, or its start is not in
    /// the window.
    NotDue,
    /// Nothing this tick: the race has no announcement to read reactions
    /// from.
    MissingAnnouncement,
    /// Read who reacted as interested to this message, then go on with
    /// `admit_interested`.
    ReadInterested { message: u64 },
}

/// What the loop is to do next about an active race.
#[derive(Debug, Clone, Copy, PartialEq, Eq, Structural)]
pub enum ActiveStep {
    /// Nothing: the race is not active.
    NotActive,
    /// The grace period is over: complete the race with `finish`.
    Complete,
    /// Nothing this tick: the race has no confirmation message to read
    /// reactions from.
    MissingConfirmation,
    /// Read who reacted as confirming to this message, then go on with
    /// `confirm` and `nag`.
    ReadConfirmed { message: u64 },
}

/// The step that belongs to a race at the activation pass.
pub open spec fn activation_of(race: RaceModel, now: int, look_ahead: int) -> ActivationStep {
    if !due_for_activation(race, now, look_ahead) {
        ActivationStep::NotDue
    } else {
        match race.scheduling_message {
            Some(message) => ActivationStep::ReadInterested { message },
            None => ActivationStep::MissingAnnouncement,
        }
    }
}

/// The step that belongs to a race at the pass over the active races.
pub open spec fn active_of(race: RaceModel, now: int, grace: int) -> ActiveStep {
    if race.state != RaceState::ACTIVE {
        ActiveStep::NotActive
    } else if overdue(race.occurs as int, now, grace) {
        ActiveStep::Complete
    } else {
        match race.active_message {
            Some(message) => ActiveStep::ReadConfirmed { message },
            None => ActiveStep::MissingConfirmation,
        }
    }
}

/// The reactors without the bot itself, which reacts to its own message.
pub open spec fn others(reactors: Seq<u64>, own_id: u64) -> Seq<u64> {
    reactors.filter(|user: u64| user != own_id)
}

/// The scheduler's memory and rules.
pub struct Engine {
    config: EngineConfig,
    nags: NagCache,
    roster: Roster,
}

impl Engine {
    /// The look-ahead window, in seconds.
    pub closed spec fn look_ahead(&self) -> int {
        self.config.look_ahead_secs as int
    }

    /// The grace period, in seconds.
    pub closed spec fn grace(&self) -> int {
        self.config.grace_minutes * 60
    }

    pub closed spec fn thresholds(&self) -> Seq<i64> {
        self.config.thresholds@
    }

    /// Seconds between two ticks.
    pub closed spec fn interval(&self) -> int {
        self.config.poll_interval_secs as int
    }

    /// The cached reminder schedules, least recently used first.
    pub closed spec fn nags(&self) -> Seq<Slot> {
        self.nags@
    }

    pub closed spec fn nag_limit(&self) -> int {
        self.nags.limit() as int
    }

    /// The participants seen so far.
    pub closed spec fn roster(&self) -> Seq<Sighting> {
        self.roster@
    }

    pub closed spec fn wf(&self) -> bool {
        &&& self.config.valid()
        &&& self.nags.wf()
        &&& self.roster.wf()
    }

    /// An engine with nothing remembered yet; none for settings that are not
    /// valid.
    pub fn new(config: EngineConfig) -> (engine: Option<Engine>)
        ensures
            engine is Some <==> config.valid(),
            engine matches Some(e) ==> {
                &&& e.wf()
                &&& e.interval() == config.poll_interval_secs
                &&& e.look_ahead() == config.look_ahead_secs
                &&& e.grace() == config.grace_minutes * 60
                &&& e.thresholds() == config.thresholds@
                &&& e.nag_limit() == config.cache_capacity
                &&& e.nags() == Seq::<Slot>::empty()
                &&& e.roster() == Seq::<Sighting>::empty()
            },
    {
        if config.is_valid() {
            let nags = NagCache::new(config.cache_capacity);
            Some(Engine { config, nags, roster: Roster::new() })
        } else {
            None
        }
    }

    /// Seconds to wait between two ticks.
    pub fn poll_interval_secs(&self) -> (seconds: u64)
        requires
            self.wf(),
        ensures
            seconds == self.interval(),
            seconds > 0,
    {
        self.config.poll_interval_secs
    }

    /// The bounds `[start, end)` within which a scheduled race is activated
    /// at a tick. The end stops at the largest instant there is.
    pub fn window(&self, now: i64) -> (bounds: (i64, i64))
        requires
            self.wf(),
        ensures
            bounds.0 == now,
            bounds.1 == if now + self.look_ahead() > i64::MAX {
                i64::MAX as int
            } else {
                now + self.look_ahead()
            },
    {
        let end = match now.checked_add(self.config.look_ahead_secs) {
            Some(end) => end,
            None => i64::MAX,
        };
        (now, end)
    }

    /// Whether a race is to be activated at this tick.
    pub fn is_due(&self, race: &Race, now: i64) -> (due: bool)
        requires
            self.wf(),
        ensures
            due == due_for_activation(race@, now as int, self.look_ahead()),
    {
        let occurs: i128 = race.occurs() as i128;
        let end: i128 = now as i128 + self.config.look_ahead_secs as i128;
        match race.get_state() {
            RaceState::SCHEDULED => now as i128 <= occurs && occurs < end,
            _ => false,
        }
    }

    /// Whether the grace period of a race is over.
    pub fn is_overdue(&self, race: &Race, now: i64) -> (late: bool)
        requires
            self.wf(),
        ensures
            late == overdue(race@.occurs as int, now as int, self.grace()),
    {
        now as i128 - race.occurs() as i128 > self.config.grace_minutes as i128 * 60
    }

    /// The next step in activating a race. Only a race that is still
    /// scheduled is ever acted on, so that a tick that is run again finds
    /// nothing left to do for a race that has become active.
    pub fn activation_step(&self, race: &Race, now: i64) -> (step: ActivationStep)
        requires
            self.wf(),
        ensures
            step == activation_of(race@, now as int, self.look_ahead()),
    {
        if !self.is_due(race, now) {
            ActivationStep::NotDue
        } else {
            match race.get_scheduling_message_id() {
                Some(message) => ActivationStep::ReadInterested { message },
                None => ActivationStep::MissingAnnouncement,
            }
        }
    }

    /// Takes in who reacted as interested to the announcement of a race.
    /// Hands back the users to give the unconfirmed role to: those not seen
    /// for the race before, each once. All of them are on the roster after.
    pub fn admit_interested(&mut self, race: &Race, reactors: &Vec<u64>) -> (newcomers: Vec<u64>)
        requires
            old(self).wf(),
        ensures
            final(self).wf(),
            newcomers@ == newly_seen(old(self).roster(), race@.id, reactors@),
            final(self).roster() == after_sightings(old(self).roster(), race@.id, reactors@),
            final(self).nags() == old(self).nags(),
            final(self).interval() == old(self).interval(),
            final(self).look_ahead() == old(self).look_ahead(),
            final(self).grace() == old(self).grace(),
            final(self).thresholds() == old(self).thresholds(),
            final(self).nag_limit() == old(self).nag_limit(),
    {
        self.roster.track_all(race.id(), reactors)
    }

    /// The next step for a race at the pass over the active races.
    pub fn active_step(&self, race: &Race, now: i64) -> (step: ActiveStep)
        requires
            self.wf(),
        ensures
            step == active_of(race@, now as int, self.grace()),
    {
        match race.get_state() {
            RaceState::ACTIVE => {
                if self.is_overdue(race, now) {
                    ActiveStep::Complete
                } else {
                    match race.get_active_message_id() {
                        Some(message) => ActiveStep::ReadConfirmed { message },
                        None => ActiveStep::MissingConfirmation,
                    }
                }
            },
            _ => ActiveStep::NotActive,
        }
    }

    /// Takes in who reacted as confirming to the confirmation message of a
    /// race. Hands back the users whose unconfirmed role is to be swapped
    /// for the confirmed one: every reactor but the bot itself. All of them
    /// are on the roster after.
    pub fn confirm(&mut self, race: &Race, reactors: &Vec<u64>, own_id: u64) -> (confirmed: Vec<u64>)
        requires
            old(self).wf(),
        ensures
            final(self).wf(),
            confirmed@ == others(reactors@, own_id),
            final(self).roster() == after_sightings(
                old(self).roster(),
                race@.id,
                others(reactors@, own_id),
            ),
            final(self).nags() == old(self).nags(),
            final(self).interval() == old(self).interval(),
            final(self).look_ahead() == old(self).look_ahead(),
            final(self).grace() == old(self).grace(),
            final(self).thresholds() == old(self).thresholds(),
            final(self).nag_limit() == old(self).nag_limit(),
    {
        let mut confirmed: Vec<u64> = Vec::new();
        let mut i: usize = 0;
        proof {
            reveal(Seq::filter);
            assert(reactors@.take(0) =~= Seq::<u64>::empty());
        }
        while i < reactors.len()
            invariant
                i <= reactors.len(),
                confirmed@ == others(reactors@.take(i as int), own_id),
            decreases reactors.len() - i,
        {
            proof {
                reveal(Seq::filter);
                assert(reactors@.take(i + 1).drop_last() =~= reactors@.take(i as int));
            }
            if reactors[i] != own_id {
                confirmed.push(reactors[i]);
            }
            i += 1;
        }
        assert(reactors@.take(i as int) =~= reactors@);
        let _ = self.roster.track_all(race.id(), &confirmed);
        confirmed
    }

    /// Decides whether to nag the unconfirmed of a race at this tick, and
    /// about which threshold. Only an active race within its grace period is
    /// looked at; for any other nothing fires and nothing is remembered.
    pub fn nag(&mut self, race: &Race, now: i64) -> (fired: Option<i64>)
        requires
            old(self).wf(),
        ensures
            final(self).wf(),
            final(self).roster() == old(self).roster(),
            final(self).interval() == old(self).interval(),
            final(self).look_ahead() == old(self).look_ahead(),
            final(self).grace() == old(self).grace(),
            final(self).thresholds() == old(self).thresholds(),
            final(self).nag_limit() == old(self).nag_limit(),
            ({
                let minutes = minutes_between(race@.occurs as int, now as int);
                let schedule = schedule_for(
                    old(self).nags(),
                    race@.id,
                    old(self).thresholds(),
                    minutes,
                );
                if race@.state == RaceState::ACTIVE && !overdue(
                    race@.occurs as int,
                    now as int,
                    old(self).grace(),
                ) {
                    &&& fired == fires(schedule, minutes)
                    &&& final(self).nags() == used(
                        old(self).nags(),
                        race@.id,
                        after_look(schedule, minutes),
                        old(self).nag_limit(),
                    )
                } else {
                    &&& fired is None
                    &&& final(self).nags() == old(self).nags()
                }
            }),
    {
        match race.get_state() {
            RaceState::ACTIVE => {
                if self.is_overdue(race, now) {
                    None
                } else {
                    let minutes = minutes_until_start(race.occurs(), now);
                    self.nags.look(race.id(), &self.config.thresholds, minutes)
                }
            },
            _ => None,
        }
    }

    /// `ACTIVE -> COMPLETED`, with what goes with it: hands back the users
    /// seen for the race, whose two participant roles are to be taken away,
    /// and forgets the race. A race that is not active is left as it is, and
    /// so is the engine.
    pub fn finish(&mut self, race: &mut Race) -> (done: Result<Vec<u64>, TransitionError>)
        requires
            old(self).wf(),
        ensures
            final(self).wf(),
            final(self).interval() == old(self).interval(),
            final(self).look_ahead() == old(self).look_ahead(),
            final(self).grace() == old(self).grace(),
            final(self).thresholds() == old(self).thresholds(),
            final(self).nag_limit() == old(self).nag_limit(),
            match done {
                Ok(users) => {
                    &&& old(race)@.state == RaceState::ACTIVE
                    &&& final(race)@ == (RaceModel { state: RaceState::COMPLETED, ..old(race)@ })
                    &&& users@ == members_of(old(self).roster(), old(race)@.id)
                    &&& final(self).roster() == without_race(old(self).roster(), old(race)@.id)
                    &&& final(self).nags() == without(old(self).nags(), old(race)@.id)
                },
                Err(e) => {
                    &&& e == TransitionError::NotActive
                    &&& old(race)@.state != RaceState::ACTIVE
                    &&& final(race)@ == old(race)@
                    &&& final(self).roster() == old(self).roster()
                    &&& final(self).nags() == old(self).nags()
                },
            },
    {
        match race.complete() {
            Ok(()) => Ok(self.release(race.id())),
            Err(e) => Err(e),
        }
    }

    /// Forgets a race that was completed elsewhere, on an operator's
    /// request: hands back the users seen for it, whose two participant
    /// roles are to be taken away, and drops its reminder schedule.
    pub fn release(&mut self, race_id: i64) -> (users: Vec<u64>)
        requires
            old(self).wf(),
        ensures
            final(self).wf(),
            final(self).interval() == old(self).interval(),
            final(self).look_ahead() == old(self).look_ahead(),
            final(self).grace() == old(self).grace(),
            final(self).thresholds() == old(self).thresholds(),
            final(self).nag_limit() == old(self).nag_limit(),
            users@ == members_of(old(self).roster(), race_id),
            final(self).roster() == without_race(old(self).roster(), race_id),
            final(self).nags() == without(old(self).nags(), race_id),
    {
        let users = self.roster.release(race_id);
        self.nags.forget(race_id);
        users
    }

    /// The users seen for a race so far.
    pub fn participants(&self, race_id: i64) -> (users: Vec<u64>)
        ensures
            users@ == members_of(self.roster(), race_id),
    {
        self.roster.members(race_id)
    }
}

/// Activation acts on scheduled races only. A race that has left that
/// state, as one does by being activated, is never due again, whatever the
/// time and the window: a tick that is run again posts no second
/// confirmation message.
pub proof fn lemma_activation_happens_once(race: RaceModel, now: int, look_ahead: int)
    requires
        race.state != RaceState::SCHEDULED,
    ensures
        !due_for_activation(race, now, look_ahead),
        activation_of(race, now, look_ahead) == ActivationStep::NotDue,
{
}

/// A race that was activated is not due for activation afterwards.
pub proof fn lemma_activated_race_is_not_due(
    race: RaceModel,
    confirmation: u64,
    now: int,
    look_ahead: int,
)
    requires
        race.state == RaceState::SCHEDULED,
    ensures
        activation_of(
            crate::race::after_move(race, crate::race::Move::Activate(confirmation)),
            now,
            look_ahead,
        ) == ActivationStep::NotDue,
{
}

/// A race is completed by the loop only once its grace period is over, and
/// a race that is not active is never touched at the pass over the active
/// races.
pub proof fn lemma_completion_waits_for_grace(race: RaceModel, now: int, grace: int)
    ensures
        active_of(race, now, grace) == ActiveStep::Complete <==> race.state == RaceState::ACTIVE
            && now - race.occurs > grace,
        race.state != RaceState::ACTIVE ==> active_of(race, now, grace) == ActiveStep::NotActive,
{
}

} // verus!
