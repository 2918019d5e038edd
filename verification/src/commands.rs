//! The chat commands: which there are, how a request for a new race is
//! read, and the words the bot answers and announces with.

use vstd::prelude::*;
use std::fmt::Write;
use chrono::TimeZone;
use chrono_tz::US::Eastern;
use crate::clock::{announced_times, civil_reading, parse_time, Instant};
use crate::text::{decimal_digits, push_decimal, str_eq};

verus! {

/// The commands the bot answers to.
#[derive(Debug, Clone, Copy, PartialEq, Eq, Structural)]
pub enum CommandKind {
    /// `bot`: a sign of life.
    Bot,
    /// `listgames`
    ListGames,
    /// `listcategories <game>`
    ListCategories,
    /// `newrace <game> <category> <time>`
    NewRace,
    /// `endrace [id]`: completes the race with the id, or the current one.
    EndRace,
}

impl CommandKind {
    /// The name a command is called by.
    pub open spec fn name(self) -> Seq<char> {
        match self {
            CommandKind::Bot => "bot"@,
            CommandKind::ListGames => "listgames"@,
            CommandKind::ListCategories => "listcategories"@,
            CommandKind::NewRace => "newrace"@,
            CommandKind::EndRace => "endrace"@,
        }
    }

    /// The command that a name calls.
    pub open spec fn named(name: Seq<char>) -> Option<CommandKind> {
        if name == CommandKind::Bot.name() {
            Some(CommandKind::Bot)
        } else if name == CommandKind::ListGames.name() {
            Some(CommandKind::ListGames)
        } else if name == CommandKind::ListCategories.name() {
            Some(CommandKind::ListCategories)
        } else if name == CommandKind::NewRace.name() {
            Some(CommandKind::NewRace)
        } else if name == CommandKind::EndRace.name() {
            Some(CommandKind::EndRace)
        } else {
            None
        }
    }

    pub fn as_str(&self) -> (name: &'static str)
        ensures
            name@ == self.name(),
    {
        match self {
            CommandKind::Bot => "bot",
            CommandKind::ListGames => "listgames",
            CommandKind::ListCategories => "listcategories",
            CommandKind::NewRace => "newrace",
            CommandKind::EndRace => "endrace",
        }
    }

    /// The command called by a name, if it is one of the bot's.
    pub fn recognize(name: &str) -> (kind: Option<CommandKind>)
        ensures
            kind == CommandKind::named(name@),
    {
        if str_eq(name, "bot") {
            Some(CommandKind::Bot)
        } else if str_eq(name, "listgames") {
            Some(CommandKind::ListGames)
        } else if str_eq(name, "listcategories") {
            Some(CommandKind::ListCategories)
        } else if str_eq(name, "newrace") {
            Some(CommandKind::NewRace)
        } else if str_eq(name, "endrace") {
            Some(CommandKind::EndRace)
        } else {
            None
        }
    }
}

/// The names of the commands differ, so each command is called by its own.
pub proof fn lemma_named_name(kind: CommandKind)
    ensures
        CommandKind::named(kind.name()) == Some(kind),
{
    reveal_strlit("bot");
    reveal_strlit("listgames");
    reveal_strlit("listcategories");
    reveal_strlit("newrace");
    reveal_strlit("endrace");
    assert("bot"@.len() == 3);
    assert("listgames"@.len() == 9);
    assert("listcategories"@.len() == 14);
    assert("newrace"@.len() == 7);
    assert("endrace"@.len() == 7);
    assert("newrace"@[0] == 'n');
    assert("endrace"@[0] == 'e');
}

/// Whether a community is the one the bot serves.
pub fn is_home_guild(name: &str) -> (home: bool)
    ensures
        home == (name@ == "RetroSpeedRuns"@),
{
    str_eq(name, "RetroSpeedRuns")
}

/// What a well-formed request for a new race asks for.
#[derive(Debug, Clone, PartialEq, Eq)]
pub struct NewRaceRequest {
    pub game: String,
    pub category: String,
    pub occurs: Instant,
}

/// Reads the arguments of a request for a new race: the game, the category,
/// and the rest of the line as the time. A request with an argument missing,
/// or with a time that cannot be read or that the Eastern clock skips, is
/// refused.
pub fn read_new_race(game: Option<&str>, category: Option<&str>, time: Option<&str>) -> (request:
    Option<NewRaceRequest>)
    ensures
        match request {
            Some(r) => {
                &&& game matches Some(g) && r.game@ == g@
                &&& category matches Some(c) && r.category@ == c@
                &&& time matches Some(t) && civil_reading(t@) == Some(r.occurs.wall_clock())
                    && announced_times(t@).first() == Some(r.occurs.epoch_seconds())
            },
            None => game is None || category is None || (time matches Some(t) ==> announced_times(
                t@,
            ) is Missing),
        },
{
    let game = match game {
        Some(g) => g,
        None => {
            return None;
        },
    };
    let category = match category {
        Some(c) => c,
        None => {
            return None;
        },
    };
    let time = match time {
        Some(t) => t,
        None => {
            return None;
        },
    };
    match parse_time(time) {
        Some(occurs) => Some(
            NewRaceRequest { game: game.to_owned(), category: category.to_owned(), occurs },
        ),
        None => None,
    }
}

/// How a request for a new race ended.
pub enum NewRaceOutcome<'a> {
    /// The request could not be read.
    SyntaxError,
    /// No game has the name given.
    UnknownGame,
    /// The game, whose short name this is, has no category of the name
    /// given.
    UnknownCategory(&'a str),
    /// The store did not take the race.
    StoreFailed,
    /// The race was created.
    Created,
}

/// The words in which the outcome of a request for a new race is reported.
pub open spec fn new_race_reply_text(outcome: NewRaceOutcome) -> Seq<char> {
    match outcome {
        NewRaceOutcome::SyntaxError => "Please use the following format: !newrace <game alias> <category alias> <time>. For example: `!newrace alttp ms 6/9/2021 11:00pm. *Convert to Eastern time first*"@,
        NewRaceOutcome::UnknownGame => "No game found with that name. Try !listgames"@,
        NewRaceOutcome::UnknownCategory(game) => "No matching category found. try !listcategories "@
            + game@,
        NewRaceOutcome::StoreFailed => "Unknown error creating the race. Bug Fox about it."@,
        NewRaceOutcome::Created => "Race created!"@,
    }
}

pub fn new_race_reply(outcome: NewRaceOutcome) -> (reply: String)
    ensures
        reply@ == new_race_reply_text(outcome),
{
    match outcome {
        NewRaceOutcome::SyntaxError => "Please use the following format: !newrace <game alias> <category alias> <time>. For example: `!newrace alttp ms 6/9/2021 11:00pm. *Convert to Eastern time first*".to_owned(),
        NewRaceOutcome::UnknownGame => "No game found with that name. Try !listgames".to_owned(),
        NewRaceOutcome::UnknownCategory(game) => {
            let mut reply = "No matching category found. try !listcategories ".to_owned();
            reply.append(game);
            reply
        },
        NewRaceOutcome::StoreFailed => "Unknown error creating the race. Bug Fox about it.".to_owned(),
        NewRaceOutcome::Created => "Race created!".to_owned(),
    }
}

/// The answer to the `bot` command.
pub fn alive_reply() -> (reply: &'static str)
    ensures
        reply@ == "Help, I'm alive!"@,
{
    "Help, I'm alive!"
}

/// The answer to a member who may not schedule races.
pub fn unauthorized_reply() -> (reply: &'static str)
    ensures
        reply@ == "You are not authorized to create races."@,
{
    "You are not authorized to create races."
}

/// How racers are told to react: with the community's raised-hand emoji
/// where it has one, with a thumb otherwise.
pub open spec fn racer_react_text(emoji: Option<u64>) -> Seq<char> {
    match emoji {
        Some(id) => "<:raisinghand:"@ + decimal_digits(id as nat) + ">"@,
        None => ":thumbup:"@,
    }
}

pub fn racer_react(emoji: Option<u64>) -> (react: String)
    ensures
        react@ == racer_react_text(emoji),
{
    match emoji {
        Some(id) => {
            let mut react = "<:raisinghand:".to_owned();
            push_decimal(&mut react, id);
            react.append(">");
            react
        },
        None => ":thumbup:".to_owned(),
    }
}

/// The mention of a role.
pub open spec fn role_mention_text(role: u64) -> Seq<char> {
    "<@&"@ + decimal_digits(role as nat) + ">"@
}

pub fn role_mention(role: u64) -> (mention: String)
    ensures
        mention@ == role_mention_text(role),
{
    let mut mention = "<@&".to_owned();
    push_decimal(&mut mention, role);
    mention.append(">");
    mention
}

/// The announcement of a newly scheduled race.
pub open spec fn announcement_text(
    game: Seq<char>,
    category: Seq<char>,
    when: Seq<char>,
    react: Seq<char>,
) -> Seq<char> {
    "There will be a race of "@ + game + " - "@ + category + " on "@ + when
        + ".\n\nIf you are racing, react with "@ + react
        + "\nIf you are available to commentate, react with :microphone2:\nIf you are able to restream, react with :tv:\n"@
}

/// Words the announcement of a race from the shown names of its game and
/// category, its start as it is to be read, and the reaction for racers.
pub fn schedule_announcement(game: &str, category: &str, when: &str, react: &str) -> (text: String)
    ensures
        text@ == announcement_text(game@, category@, when@, react@),
{
    let mut text = "There will be a race of ".to_owned();
    text.append(game);
    text.append(" - ");
    text.append(category);
    text.append(" on ");
    text.append(when);
    text.append(".\n\nIf you are racing, react with ");
    text.append(react);
    text.append(
        "\nIf you are available to commentate, react with :microphone2:\nIf you are able to restream, react with :tv:\n",
    );
    text
}

/// What `chrono` writes for an instant on the US Eastern clock under a
/// format: the text of `DateTime::format`, or nothing where the instant is
/// outside chrono's range or the format cannot be written.
pub uninterp spec fn eastern_formatted(timestamp: i64, pattern: Seq<char>) -> Option<Seq<char>>;

/// Takes the instant to `chrono_tz::US::Eastern` with
/// `TimeZone::timestamp_opt` and writes it with `DateTime::format`. Nothing
/// is claimed of the text but its name.
#[verifier::external_body]
fn eastern_format(timestamp: i64, pattern: &str) -> (written: Option<String>)
    ensures
        match written {
            Some(text) => eastern_formatted(timestamp, pattern@) == Some(text@),
            None => eastern_formatted(timestamp, pattern@) is None,
        },
{
    let moment = match Eastern.timestamp_opt(timestamp, 0).single() {
        Some(moment) => moment,
        None => return None,
    };
    let mut text = String::new();
    match write!(text, "{}", moment.format(pattern)) {
        Ok(()) => Some(text),
        Err(_) => None,
    }
}

/// The start of a race as announcements show it, such as
/// `Wednesday, June 09 at 11:00PM EDT`.
pub fn announced_start(occurs: &Instant) -> (shown: Option<String>)
    ensures
        match shown {
            Some(text) => eastern_formatted(occurs.epoch_seconds(), "%A, %B %d at %I:%M%p %Z"@)
                == Some(text@),
            None => eastern_formatted(occurs.epoch_seconds(), "%A, %B %d at %I:%M%p %Z"@) is None,
        },
{
    eastern_format(occurs.timestamp(), "%A, %B %d at %I:%M%p %Z")
}

/// The announcement of a newly scheduled race, ready to post; none where
/// the start cannot be written out.
pub fn announce(game: &str, category: &str, occurs: &Instant, emoji: Option<u64>) -> (text: Option<
    String,
>)
    ensures
        match text {
            Some(t) => exists|when: Seq<char>|
                eastern_formatted(occurs.epoch_seconds(), "%A, %B %d at %I:%M%p %Z"@) == Some(when)
                    && t@ == announcement_text(game@, category@, when, racer_react_text(emoji)),
            None => eastern_formatted(occurs.epoch_seconds(), "%A, %B %d at %I:%M%p %Z"@) is None,
        },
{
    match announced_start(occurs) {
        Some(when) => {
            let react = racer_react(emoji);
            Some(schedule_announcement(game, category, when.as_str(), react.as_str()))
        },
        None => None,
    }
}

} // verus!
