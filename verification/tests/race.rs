use race_scheduler::clock::parse_time;
use race_scheduler::race::{Move, Race, RaceRecord, TransitionError};
use race_scheduler::state::{ParseError, RaceState};

fn sample() -> Race {
    let when = parse_time("06/09/2021 11:10pm").unwrap();
    Race::new(7, 1, 2, &when)
}

fn record(state: &str, scheduling: Option<&str>, active: Option<&str>) -> RaceRecord {
    RaceRecord {
        id: 7,
        game_id: 1,
        category_id: 2,
        state: state.to_string(),
        occurs: 1623294600,
        scheduling_message_id: scheduling.map(|s| s.to_string()),
        active_message_id: active.map(|s| s.to_string()),
    }
}

#[test]
fn a_new_race_is_scheduled_and_has_no_messages() {
    let when = parse_time("06/09/2021 11:10pm").unwrap();
    let race = Race::new(7, 1, 2, &when);
    assert_eq!(7, race.id());
    assert_eq!(1, race.game_id());
    assert_eq!(2, race.category_id());
    assert_eq!(race.occurs(), when.timestamp());
    assert_eq!(1623294600, race.occurs());
    assert_eq!(None, race.get_scheduling_message_id());
    assert_eq!(None, race.get_active_message_id());
    assert_eq!(race.get_state(), RaceState::SCHEDULED);
}

#[test]
fn a_race_survives_being_stored_and_loaded() {
    let mut race = sample();
    race.set_scheduling_message_id(u64::MAX);
    race.set_state(RaceState::ACTIVE);
    let stored = race.to_record();
    assert_eq!(record("ACTIVE", Some("18446744073709551615"), None), stored);
    assert_eq!(Ok(race), Race::from_record(&stored));

    race.set_active_message_id(12);
    race.set_state(RaceState::COMPLETED);
    let stored = race.to_record();
    assert_eq!(record("COMPLETED", Some("18446744073709551615"), Some("12")), stored);
    assert_eq!(Ok(race), Race::from_record(&stored));
}

#[test]
fn loading_rejects_an_unknown_state_and_drops_a_broken_reference() {
    assert_eq!(Err(ParseError), Race::from_record(&record("PAUSED", None, None)));
    assert_eq!(Err(ParseError), Race::from_record(&record("", Some("1"), None)));
    let race = Race::from_record(&record("SCHEDULED", Some("not a number"), Some("-4"))).unwrap();
    assert_eq!(None, race.get_scheduling_message_id());
    assert_eq!(None, race.get_active_message_id());
    let race = Race::from_record(&record("ACTIVE", Some("15"), Some("+16"))).unwrap();
    assert_eq!(Some(15), race.get_scheduling_message_id());
    assert_eq!(Some(16), race.get_active_message_id());
    assert_eq!(RaceState::ACTIVE, race.get_state());
    assert_eq!(1623294600, race.occurs());
}

#[test]
fn message_references_are_written_once() {
    let mut race = sample();
    race.set_scheduling_message_id(100);
    race.set_scheduling_message_id(200);
    assert_eq!(Some(100), race.get_scheduling_message_id());
    race.set_active_message_id(300);
    race.set_active_message_id(400);
    assert_eq!(Some(300), race.get_active_message_id());
}

#[test]
fn set_state_only_moves_forward_by_one_step() {
    let mut race = sample();
    race.set_state(RaceState::COMPLETED);
    assert_eq!(RaceState::SCHEDULED, race.get_state());
    race.set_state(RaceState::SCHEDULED);
    assert_eq!(RaceState::SCHEDULED, race.get_state());
    race.set_state(RaceState::ACTIVE);
    assert_eq!(RaceState::ACTIVE, race.get_state());
    race.set_state(RaceState::SCHEDULED);
    assert_eq!(RaceState::ACTIVE, race.get_state());
    race.set_state(RaceState::ACTIVE);
    assert_eq!(RaceState::ACTIVE, race.get_state());
    race.set_state(RaceState::COMPLETED);
    assert_eq!(RaceState::COMPLETED, race.get_state());
    race.set_state(RaceState::ACTIVE);
    assert_eq!(RaceState::COMPLETED, race.get_state());
    race.set_state(RaceState::SCHEDULED);
    assert_eq!(RaceState::COMPLETED, race.get_state());
}

#[test]
fn activate_and_complete_report_what_they_refuse() {
    let mut race = sample();
    assert_eq!(Err(TransitionError::NotActive), race.complete());
    assert_eq!(RaceState::SCHEDULED, race.get_state());
    assert_eq!(Ok(()), race.activate(55));
    assert_eq!(RaceState::ACTIVE, race.get_state());
    assert_eq!(Some(55), race.get_active_message_id());
    let active = race;
    assert_eq!(Err(TransitionError::NotScheduled), race.activate(66));
    assert_eq!(active, race);
    assert_eq!(Ok(()), race.complete());
    assert_eq!(RaceState::COMPLETED, race.get_state());
    let completed = race;
    assert_eq!(Err(TransitionError::NotActive), race.complete());
    assert_eq!(Err(TransitionError::NotScheduled), race.activate(77));
    assert_eq!(completed, race);
}

#[test]
fn a_completed_race_never_goes_back() {
    let states = [RaceState::SCHEDULED, RaceState::ACTIVE, RaceState::COMPLETED];
    let mut seed: u64 = 0x2545F4914F6CDD1D;
    for _ in 0..200 {
        let mut race = sample();
        let mut rank = 0;
        let mut completed = false;
        for _ in 0..40 {
            seed ^= seed << 13;
            seed ^= seed >> 7;
            seed ^= seed << 17;
            let request = match seed % 7 {
                0 => Move::SetState(RaceState::SCHEDULED),
                1 => Move::SetState(RaceState::ACTIVE),
                2 => Move::SetState(RaceState::COMPLETED),
                3 => Move::Activate(seed),
                4 => Move::Complete,
                5 => Move::SetSchedulingMessage(seed),
                _ => Move::SetActiveMessage(seed),
            };
            let scheduling = race.get_scheduling_message_id();
            let active = race.get_active_message_id();
            race.perform(request);
            let now = states.iter().position(|s| *s == race.get_state()).unwrap();
            assert!(now >= rank);
            assert!(now <= rank + 1);
            rank = now;
            if completed {
                assert_eq!(RaceState::COMPLETED, race.get_state());
            }
            completed = race.get_state() == RaceState::COMPLETED;
            if scheduling.is_some() {
                assert_eq!(scheduling, race.get_scheduling_message_id());
            }
            if active.is_some() {
                assert_eq!(active, race.get_active_message_id());
            }
            assert_eq!(7, race.id());
        }
    }
}

#[test]
fn get_occurs_reads_the_start_on_the_eastern_clock() {
    let mut race = sample();
    let occurs = race.get_occurs().unwrap();
    assert_eq!(1623294600, occurs.timestamp());
    assert_eq!((2021, 6, 9), (occurs.year(), occurs.month(), occurs.day()));
    assert_eq!((23, 10, 0), (occurs.hour(), occurs.minute(), occurs.second()));
    let later = parse_time("12/24/2021 6:00pm").unwrap();
    race.set_occurs(&later);
    assert_eq!(later.timestamp(), race.occurs());
    assert_eq!(Some(later), race.get_occurs());
}

#[test]
fn a_race_and_a_parse_error_have_their_words() {
    assert_eq!("Race #7", sample().to_string());
    assert_eq!("Parse error", ParseError.to_string());
}

#[test]
fn test_race_operations() {
    let when = parse_time("06/09/2021 11:10pm").unwrap();
    let mut race = Race::new(1, 1, 2, &when);
    assert_eq!(race.occurs(), when.timestamp());
    assert_eq!(race.category_id(), 2);
    assert_eq!(race.game_id(), 1);
    assert_eq!(race.get_scheduling_message_id(), None);
    assert_eq!(race.get_state(), RaceState::SCHEDULED);
    let mid = u64::MAX;
    race.set_scheduling_message_id(mid);
    race.set_state(RaceState::ACTIVE);

    let stored = race.to_record();
    let race_refreshed = Race::from_record(&stored).unwrap();
    assert_eq!(race, race_refreshed);
    assert_eq!(Some(mid), race_refreshed.get_scheduling_message_id());
    assert_eq!(RaceState::ACTIVE, race_refreshed.get_state());
}
