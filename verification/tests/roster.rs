use race_scheduler::roster::Roster;

#[test]
fn a_user_is_written_once_per_race() {
    let mut roster = Roster::new();
    assert!(!roster.is_tracked(1, 10));
    assert!(roster.track(1, 10));
    assert!(!roster.track(1, 10));
    assert!(roster.track(2, 10));
    assert!(roster.track(1, 11));
    assert!(roster.is_tracked(1, 10));
    assert!(roster.is_tracked(2, 10));
    assert!(!roster.is_tracked(2, 11));
    assert_eq!(vec![10, 11], roster.members(1));
    assert_eq!(vec![10], roster.members(2));
    assert_eq!(Vec::<u64>::new(), roster.members(3));
}

#[test]
fn track_all_hands_back_the_newcomers_each_once() {
    let mut roster = Roster::new();
    roster.track(1, 10);
    assert_eq!(vec![12, 11], roster.track_all(1, &vec![12, 10, 11, 12, 10]));
    assert_eq!(vec![10, 12, 11], roster.members(1));
    assert_eq!(Vec::<u64>::new(), roster.track_all(1, &vec![12, 10, 11, 12, 10]));
    assert_eq!(vec![10, 12, 11], roster.members(1));
    assert_eq!(vec![10], roster.track_all(2, &vec![10]));
}

#[test]
fn release_takes_one_race_out_and_leaves_the_others() {
    let mut roster = Roster::new();
    roster.track_all(1, &vec![10, 11]);
    roster.track_all(2, &vec![11, 12]);
    roster.track(1, 13);
    assert_eq!(vec![10, 11, 13], roster.release(1));
    assert_eq!(Vec::<u64>::new(), roster.members(1));
    assert_eq!(vec![11, 12], roster.members(2));
    assert_eq!(Vec::<u64>::new(), roster.release(1));
    assert!(roster.track(1, 10));
}
