//! The words of the messages that the scheduler loop posts.

use vstd::prelude::*;
use crate::commands::role_mention_text;
use crate::text::{push_decimal, push_signed, signed_digits};

verus! {

/// The confirmation message of a race that has become active: it mentions
/// the unconfirmed, names the game and the category, and asks for a
/// reaction.
pub open spec fn confirmation_text(role: u64, game: Seq<char>, category: Seq<char>) -> Seq<char> {
    role_mention_text(role) + " "@ + game + " - "@ + category
        + " starts soon. React to this message to confirm that you are racing."@
}

/// A reminder to the unconfirmed: it mentions them, names the game and the
/// category, and tells the threshold, in minutes, that has been passed.
pub open spec fn nag_text(role: u64, game: Seq<char>, category: Seq<char>, threshold: i64) -> Seq<
    char,
> {
    role_mention_text(role) + " "@ + game + " - "@ + category + " starts in less than "@
        + signed_digits(threshold as int)
        + " minutes. React to the confirmation message if you are racing."@
}

fn push_heading(out: &mut String, role: u64, game: &str, category: &str)
    ensures
        final(out)@ == old(out)@ + role_mention_text(role) + " "@ + game@ + " - "@ + category@,
{
    out.append("<@&");
    push_decimal(out, role);
    out.append("> ");
    out.append(game);
    out.append(" - ");
    out.append(category);
    proof {
        reveal_strlit("> ");
        reveal_strlit(">");
        reveal_strlit(" ");
        assert("> "@ =~= ">"@ + " "@);
        assert(out@ =~= old(out)@ + role_mention_text(role) + " "@ + game@ + " - "@ + category@);
    }
}

/// Words the confirmation message of a race.
pub fn confirmation_message(role: u64, game: &str, category: &str) -> (text: String)
    ensures
        text@ == confirmation_text(role, game@, category@),
{
    let mut text = String::new();
    push_heading(&mut text, role, game, category);
    text.append(" starts soon. React to this message to confirm that you are racing.");
    assert(text@ =~= confirmation_text(role, game@, category@));
    text
}

/// Words a reminder for a threshold that has fired.
pub fn nag_message(role: u64, game: &str, category: &str, threshold: i64) -> (text: String)
    ensures
        text@ == nag_text(role, game@, category@, threshold),
{
    let mut text = String::new();
    push_heading(&mut text, role, game, category);
    text.append(" starts in less than ");
    push_signed(&mut text, threshold);
    text.append(" minutes. React to the confirmation message if you are racing.");
    assert(text@ =~= nag_text(role, game@, category@, threshold));
    text
}

} // verus!
