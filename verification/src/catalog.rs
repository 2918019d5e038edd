//! The games and categories that races are run in, and the lists of them
//! that the bot answers with.

use vstd::prelude::*;

verus! {

/// A game that races are run in.
#[derive(Debug, Clone, PartialEq, Eq)]
pub struct Game {
    pub id: i64,
    /// The short name that commands use.
    pub name: String,
    /// The name as it is shown to people.
    pub name_pretty: String,
}

/// A category of a game.
#[derive(Debug, Clone, PartialEq, Eq)]
pub struct Category {
    pub id: i64,
    pub game_id: i64,
    /// The short name that commands use.
    pub name: String,
    /// The name as it is shown to people.
    pub name_pretty: String,
}

/// How a request for the categories of a game went, up to the listing.
pub enum CategoryLookup<'a> {
    /// The request named no game.
    NoGameNamed,
    /// No game has the name that was given.
    UnknownGame,
    /// The game and its categories.
    Found(&'a Game, &'a Vec<Category>),
}

/// One line of a listing: `* Shown Name (name)`.
pub open spec fn entry_line(pretty: Seq<char>, name: Seq<char>) -> Seq<char> {
    "* "@ + pretty + " ("@ + name + ")"@
}

/// The lines for the games, each on a line of its own after a line break.
pub open spec fn game_lines(games: Seq<Game>) -> Seq<char>
    decreases games.len(),
{
    if games.len() == 0 {
        Seq::empty()
    } else {
        game_lines(games.drop_last()) + "\n"@ + entry_line(
            games.last().name_pretty@,
            games.last().name@,
        )
    }
}

/// The lines for the categories, each on a line of its own after a line
/// break.
pub open spec fn category_lines(categories: Seq<Category>) -> Seq<char>
    decreases categories.len(),
{
    if categories.len() == 0 {
        Seq::empty()
    } else {
        category_lines(categories.drop_last()) + "\n"@ + entry_line(
            categories.last().name_pretty@,
            categories.last().name@,
        )
    }
}

/// The answer to a request for the categories of a game.
pub open spec fn category_reply(lookup: CategoryLookup) -> Seq<char> {
    match lookup {
        CategoryLookup::NoGameNamed => "Please specify game: !listcategories <game>"@,
        CategoryLookup::UnknownGame => "No game found with that name"@,
        CategoryLookup::Found(game, categories) => "Available categories for "@
            + game.name_pretty@ + ":"@ + category_lines(categories@),
    }
}

fn push_entry(out: &mut String, pretty: &str, name: &str)
    ensures
        final(out)@ == old(out)@ + "\n"@ + entry_line(pretty@, name@),
{
    out.append("\n");
    out.append("* ");
    out.append(pretty);
    out.append(" (");
    out.append(name);
    out.append(")");
    assert(out@ =~= old(out)@ + "\n"@ + entry_line(pretty@, name@));
}

/// The list of games: a heading, then one line per game.
pub fn list_games(games: &Vec<Game>) -> (listing: String)
    ensures
        listing@ == "Available games:"@ + game_lines(games@),
{
    let mut listing = "Available games:".to_owned();
    let mut i: usize = 0;
    assert(games@.take(0) =~= Seq::<Game>::empty());
    assert(listing@ =~= "Available games:"@ + game_lines(games@.take(0)));
    while i < games.len()
        invariant
            i <= games.len(),
            listing@ == "Available games:"@ + game_lines(games@.take(i as int)),
        decreases games.len() - i,
    {
        let ghost before = listing@;
        push_entry(&mut listing, games[i].name_pretty.as_str(), games[i].name.as_str());
        proof {
            let longer = games@.take(i + 1);
            assert(longer.drop_last() =~= games@.take(i as int));
            assert(longer.last() == games@[i as int]);
            assert(listing@ =~= "Available games:"@ + game_lines(longer));
        }
        i += 1;
    }
    assert(games@.take(i as int) =~= games@);
    listing
}

/// The answer to a request for the categories of a game: the heading with
/// the game's name and one line per category, or the words that say what was
/// wrong with the request.
pub fn list_categories(lookup: CategoryLookup) -> (reply: String)
    ensures
        reply@ == category_reply(lookup),
{
    match lookup {
        CategoryLookup::NoGameNamed => "Please specify game: !listcategories <game>".to_owned(),
        CategoryLookup::UnknownGame => "No game found with that name".to_owned(),
        CategoryLookup::Found(game, categories) => {
            let mut reply = "Available categories for ".to_owned();
            reply.append(game.name_pretty.as_str());
            reply.append(":");
            let ghost heading = reply@;
            let mut i: usize = 0;
            assert(categories@.take(0) =~= Seq::<Category>::empty());
            assert(reply@ =~= heading + category_lines(categories@.take(0)));
            while i < categories.len()
                invariant
                    i <= categories.len(),
                    reply@ == heading + category_lines(categories@.take(i as int)),
                decreases categories.len() - i,
            {
                push_entry(
                    &mut reply,
                    categories[i].name_pretty.as_str(),
                    categories[i].name.as_str(),
                );
                proof {
                    let longer = categories@.take(i + 1);
                    assert(longer.drop_last() =~= categories@.take(i as int));
                    assert(longer.last() == categories@[i as int]);
                    assert(reply@ =~= heading + category_lines(longer));
                }
                i += 1;
            }
            assert(categories@.take(i as int) =~= categories@);
            assert(heading =~= "Available categories for "@ + game.name_pretty@ + ":"@);
            reply
        },
    }
}

} // verus!
