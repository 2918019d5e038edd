use race_scheduler::notices::{confirmation_message, nag_message};
use race_scheduler::startup::{Bearings, Prerequisites};
use race_scheduler::store::{race_columns, update_statement};
use race_scheduler::text::push_signed;

#[test]
fn the_confirmation_message_mentions_the_unconfirmed() {
    assert_eq!(
        "<@&4005> A Link To The Past - Master Sword starts soon. React to this message to confirm that you are racing.",
        confirmation_message(4005, "A Link To The Past", "Master Sword")
    );
}

#[test]
fn a_nag_names_the_race_and_the_threshold() {
    assert_eq!(
        "<@&4005> A Link To The Past - Master Sword starts in less than 15 minutes. React to the confirmation message if you are racing.",
        nag_message(4005, "A Link To The Past", "Master Sword", 15)
    );
    assert_eq!(
        "<@&1> g - c starts in less than -5 minutes. React to the confirmation message if you are racing.",
        nag_message(1, "g", "c", -5)
    );
}

#[test]
fn signed_numbers_are_written_with_their_sign() {
    for n in [0, 7, -7, 60, i64::MAX, i64::MIN, i64::MIN + 1] {
        let mut text = String::from("#");
        push_signed(&mut text, n);
        assert_eq!(format!("#{}", n), text);
    }
}

#[test]
fn the_loop_starts_only_with_all_its_bearings() {
    let mut known = Prerequisites::unknown();
    assert_eq!(None, known.resolve());
    known.scheduling_channel = Some(1);
    known.active_channel = Some(2);
    known.confirm_reaction = Some(3);
    known.unconfirmed_role = Some(4);
    assert_eq!(None, known.resolve());
    known.confirmed_role = Some(5);
    assert_eq!(
        Some(Bearings {
            scheduling_channel: 1,
            active_channel: 2,
            confirm_reaction: 3,
            unconfirmed_role: 4,
            confirmed_role: 5,
        }),
        known.resolve()
    );
    for missing in 0..5 {
        let mut partial = known;
        match missing {
            0 => partial.scheduling_channel = None,
            1 => partial.active_channel = None,
            2 => partial.confirm_reaction = None,
            3 => partial.unconfirmed_role = None,
            _ => partial.confirmed_role = None,
        }
        assert_eq!(None, partial.resolve());
    }
}

#[test]
fn the_update_statement_has_one_placeholder_per_column() {
    assert_eq!(
        " UPDATE Game SET  id = ?, name = ?, name_pretty = ?  WHERE id = ?",
        update_statement(
            "Game",
            &vec!["id".to_string(), "name".to_string(), "name_pretty".to_string()]
        )
    );
    assert_eq!(" UPDATE T SET  a = ?  WHERE id = ?", update_statement("T", &vec!["a".to_string()]));
    assert_eq!(" UPDATE T SET    WHERE id = ?", update_statement("T", &vec![]));
    assert_eq!(
        " UPDATE Race SET  id = ?, game_id = ?, category_id = ?, state = ?, occurs = ?, scheduling_message_id = ?, active_message_id = ?  WHERE id = ?",
        update_statement("Race", &race_columns())
    );
}
