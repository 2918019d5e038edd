use race_scheduler::state::{ParseError, RaceState};

#[test]
fn each_state_is_stored_under_its_own_spelling() {
    assert_eq!("SCHEDULED", RaceState::SCHEDULED.as_str());
    assert_eq!("ACTIVE", RaceState::ACTIVE.as_str());
    assert_eq!("COMPLETED", RaceState::COMPLETED.as_str());
    assert_eq!("ACTIVE".to_string(), RaceState::ACTIVE.to_string());
}

#[test]
fn each_spelling_reads_back_as_its_state() {
    for state in [RaceState::SCHEDULED, RaceState::ACTIVE, RaceState::COMPLETED] {
        assert_eq!(Ok(state), RaceState::from_str(state.as_str()));
        assert_eq!(Ok(state), RaceState::from_str(&state.to_string()));
    }
}

#[test]
fn other_spellings_are_a_parse_error() {
    assert_eq!(Err(ParseError), RaceState::from_str(""));
    assert_eq!(Err(ParseError), RaceState::from_str("active"));
    assert_eq!(Err(ParseError), RaceState::from_str("ACTIVE "));
    assert_eq!(Err(ParseError), RaceState::from_str("SCHEDULE"));
    assert_eq!(Err(ParseError), RaceState::from_str("COMPLETEDX"));
    assert_eq!(Err(ParseError), RaceState::from_str("DONE"));
}

#[test]
fn only_forward_steps_are_legal() {
    let all = [RaceState::SCHEDULED, RaceState::ACTIVE, RaceState::COMPLETED];
    for from in all {
        for to in all {
            let legal = matches!(
                (from, to),
                (RaceState::SCHEDULED, RaceState::ACTIVE) | (RaceState::ACTIVE, RaceState::COMPLETED)
            );
            assert_eq!(legal, from.can_become(to), "{:?} -> {:?}", from, to);
        }
    }
}
