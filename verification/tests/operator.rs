use race_scheduler::clock::parse_time;
use race_scheduler::operator::{complete_by_id, complete_current, CompletionError};
use race_scheduler::race::Race;
use race_scheduler::state::RaceState;

fn race(id: i64, state: RaceState) -> Race {
    let when = parse_time("06/09/2021 11:10pm").unwrap();
    let mut race = Race::new(id, 1, 2, &when);
    if state != RaceState::SCHEDULED {
        race.activate(1000 + id as u64).unwrap();
    }
    if state == RaceState::COMPLETED {
        race.complete().unwrap();
    }
    race
}

#[test]
fn completing_an_unknown_race_finds_no_valid_race() {
    let mut races = vec![race(1, RaceState::ACTIVE), race(2, RaceState::SCHEDULED)];
    let before = races.clone();
    assert_eq!(Err(CompletionError::NoValidRace), complete_by_id(&mut races, 3));
    assert_eq!(before, races);
    assert_eq!("no valid race found", CompletionError::NoValidRace.message());
    let mut none: Vec<Race> = Vec::new();
    assert_eq!(Err(CompletionError::NoValidRace), complete_by_id(&mut none, 1));
}

#[test]
fn completing_a_race_that_is_not_active_changes_nothing() {
    let mut races = vec![race(1, RaceState::COMPLETED), race(2, RaceState::SCHEDULED)];
    let before = races.clone();
    assert_eq!(Err(CompletionError::NotActive), complete_by_id(&mut races, 1));
    assert_eq!(Err(CompletionError::NotActive), complete_by_id(&mut races, 2));
    assert_eq!(before, races);
    assert_eq!("not currently active", CompletionError::NotActive.message());
}

#[test]
fn completing_an_active_race_by_id_completes_only_that_race() {
    let mut races =
        vec![race(1, RaceState::ACTIVE), race(2, RaceState::ACTIVE), race(3, RaceState::SCHEDULED)];
    let before = races.clone();
    assert_eq!(Ok(1), complete_by_id(&mut races, 2));
    assert_eq!(RaceState::COMPLETED, races[1].get_state());
    assert_eq!(before[1].get_active_message_id(), races[1].get_active_message_id());
    assert_eq!(before[1].occurs(), races[1].occurs());
    assert_eq!(before[0], races[0]);
    assert_eq!(before[2], races[2]);
    assert_eq!(Err(CompletionError::NotActive), complete_by_id(&mut races, 2));
}

#[test]
fn the_one_active_race_is_the_current_race() {
    let mut races = vec![
        race(1, RaceState::COMPLETED),
        race(2, RaceState::SCHEDULED),
        race(3, RaceState::ACTIVE),
        race(4, RaceState::SCHEDULED),
    ];
    let before = races.clone();
    assert_eq!(Ok(2), complete_current(&mut races));
    assert_eq!(RaceState::COMPLETED, races[2].get_state());
    assert_eq!(3, races[2].id());
    for i in [0, 1, 3] {
        assert_eq!(before[i], races[i]);
    }
}

#[test]
fn two_active_races_are_ambiguous_and_stay_as_they_are() {
    let mut races =
        vec![race(1, RaceState::ACTIVE), race(2, RaceState::SCHEDULED), race(3, RaceState::ACTIVE)];
    let before = races.clone();
    assert_eq!(Err(CompletionError::Ambiguous), complete_current(&mut races));
    assert_eq!(before, races);
    assert_eq!("more than one race is active", CompletionError::Ambiguous.message());
}

#[test]
fn without_an_active_race_there_is_no_current_race() {
    let mut races = vec![race(1, RaceState::COMPLETED), race(2, RaceState::SCHEDULED)];
    let before = races.clone();
    assert_eq!(Err(CompletionError::NoValidRace), complete_current(&mut races));
    assert_eq!(before, races);
    let mut none: Vec<Race> = Vec::new();
    assert_eq!(Err(CompletionError::NoValidRace), complete_current(&mut none));
}

#[test]
fn a_request_to_complete_is_answered_in_words() {
    assert_eq!("Race completed!", race_scheduler::operator::completion_reply(&Ok(3)));
    assert_eq!(
        "not currently active",
        race_scheduler::operator::completion_reply(&Err(CompletionError::NotActive))
    );
}
