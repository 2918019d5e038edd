use race_scheduler::clock::parse_time;
use race_scheduler::commands::{
    alive_reply, announce, announced_start, is_home_guild, new_race_reply, racer_react,
    read_new_race, role_mention, schedule_announcement, unauthorized_reply, CommandKind,
    NewRaceOutcome,
};

#[test]
fn the_four_commands_are_recognized_by_name() {
    assert_eq!(Some(CommandKind::Bot), CommandKind::recognize("bot"));
    assert_eq!(Some(CommandKind::ListGames), CommandKind::recognize("listgames"));
    assert_eq!(Some(CommandKind::ListCategories), CommandKind::recognize("listcategories"));
    assert_eq!(Some(CommandKind::NewRace), CommandKind::recognize("newrace"));
    assert_eq!(Some(CommandKind::EndRace), CommandKind::recognize("endrace"));
    assert_eq!(None, CommandKind::recognize("Bot"));
    assert_eq!(None, CommandKind::recognize("startrace"));
    assert_eq!(None, CommandKind::recognize(""));
    for kind in [
        CommandKind::Bot,
        CommandKind::ListGames,
        CommandKind::ListCategories,
        CommandKind::NewRace,
        CommandKind::EndRace,
    ] {
        assert_eq!(Some(kind), CommandKind::recognize(kind.as_str()));
    }
}

#[test]
fn only_the_home_guild_is_served() {
    assert!(is_home_guild("RetroSpeedRuns"));
    assert!(!is_home_guild("retrospeedruns"));
    assert!(!is_home_guild("RetroSpeedRuns2"));
}

#[test]
fn a_new_race_needs_a_game_a_category_and_a_time() {
    let request = read_new_race(Some("alttp"), Some("nmg"), Some("06/09/2021 11:10PM")).unwrap();
    assert_eq!("alttp", request.game);
    assert_eq!("nmg", request.category);
    assert_eq!(1623294600, request.occurs.timestamp());
    assert_eq!(parse_time("06/09/2021 11:10pm").unwrap(), request.occurs);
    assert_eq!(None, read_new_race(None, Some("nmg"), Some("06/09/2021 11:10pm")));
    assert_eq!(None, read_new_race(Some("alttp"), None, Some("06/09/2021 11:10pm")));
    assert_eq!(None, read_new_race(Some("alttp"), Some("nmg"), None));
    assert_eq!(None, read_new_race(Some("alttp"), Some("nmg"), Some("tomorrow")));
    assert_eq!(None, read_new_race(Some("alttp"), Some("nmg"), Some("03/14/2021 2:30am")));
}

#[test]
fn each_outcome_of_a_new_race_has_its_reply() {
    assert_eq!(
        "Please use the following format: !newrace <game alias> <category alias> <time>. For example: `!newrace alttp ms 6/9/2021 11:00pm. *Convert to Eastern time first*",
        new_race_reply(NewRaceOutcome::SyntaxError)
    );
    assert_eq!(
        "No game found with that name. Try !listgames",
        new_race_reply(NewRaceOutcome::UnknownGame)
    );
    assert_eq!(
        "No matching category found. try !listcategories alttp",
        new_race_reply(NewRaceOutcome::UnknownCategory("alttp"))
    );
    assert_eq!(
        "Unknown error creating the race. Bug Fox about it.",
        new_race_reply(NewRaceOutcome::StoreFailed)
    );
    assert_eq!("Race created!", new_race_reply(NewRaceOutcome::Created));
    assert_eq!("Help, I'm alive!", alive_reply());
    assert_eq!("You are not authorized to create races.", unauthorized_reply());
}

#[test]
fn racers_react_with_the_raised_hand_or_a_thumb() {
    assert_eq!("<:raisinghand:798390141496197212>", racer_react(Some(798390141496197212)));
    assert_eq!(":thumbup:", racer_react(None));
    assert_eq!("<@&4005>", role_mention(4005));
    assert_eq!("<@&0>", role_mention(0));
}

#[test]
fn the_start_is_shown_on_the_eastern_clock() {
    let summer = parse_time("06/09/2021 11:00pm").unwrap();
    assert_eq!(Some("Wednesday, June 09 at 11:00PM EDT".to_string()), announced_start(&summer));
    let winter = parse_time("01/02/2022 9:05am").unwrap();
    assert_eq!(Some("Sunday, January 02 at 09:05AM EST".to_string()), announced_start(&winter));
}

#[test]
fn the_announcement_names_the_race_and_the_reactions() {
    let text = schedule_announcement("A Link To The Past", "Master Sword", "Friday", ":thumbup:");
    assert_eq!(
        "There will be a race of A Link To The Past - Master Sword on Friday.\n\nIf you are racing, react with :thumbup:\nIf you are available to commentate, react with :microphone2:\nIf you are able to restream, react with :tv:\n",
        text
    );
    let when = parse_time("06/09/2021 11:00pm").unwrap();
    assert_eq!(
        Some(
            "There will be a race of A Link To The Past - Master Sword on Wednesday, June 09 at 11:00PM EDT.\n\nIf you are racing, react with <:raisinghand:12>\nIf you are available to commentate, react with :microphone2:\nIf you are able to restream, react with :tv:\n"
                .to_string()
        ),
        announce("A Link To The Past", "Master Sword", &when, Some(12))
    );
}
