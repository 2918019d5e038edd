use race_scheduler::catalog::{list_categories, list_games, Category, CategoryLookup, Game};

fn game(id: i64, name: &str, pretty: &str) -> Game {
    Game { id, name: name.to_string(), name_pretty: pretty.to_string() }
}

fn category(id: i64, game_id: i64, name: &str, pretty: &str) -> Category {
    Category { id, game_id, name: name.to_string(), name_pretty: pretty.to_string() }
}

#[test]
fn games_are_listed_one_per_line_under_a_heading() {
    assert_eq!("Available games:", list_games(&vec![]));
    assert_eq!(
        "Available games:\n* A Link To The Past (alttp)",
        list_games(&vec![game(1, "alttp", "A Link To The Past")])
    );
    assert_eq!(
        "Available games:\n* A Link To The Past (alttp)\n* Super Metroid (sm)",
        list_games(&vec![game(1, "alttp", "A Link To The Past"), game(2, "sm", "Super Metroid")])
    );
}

#[test]
fn categories_are_listed_under_the_name_of_their_game() {
    let alttp = game(1, "alttp", "A Link To The Past");
    let categories =
        vec![category(1, 1, "ms", "Master Sword"), category(2, 1, "nmg", "Any% NMG No S&Q")];
    assert_eq!(
        "Available categories for A Link To The Past:\n* Master Sword (ms)\n* Any% NMG No S&Q (nmg)",
        list_categories(CategoryLookup::Found(&alttp, &categories))
    );
    assert_eq!(
        "Available categories for A Link To The Past:",
        list_categories(CategoryLookup::Found(&alttp, &vec![]))
    );
}

#[test]
fn a_listing_that_cannot_be_made_says_why() {
    assert_eq!(
        "Please specify game: !listcategories <game>",
        list_categories(CategoryLookup::NoGameNamed)
    );
    assert_eq!("No game found with that name", list_categories(CategoryLookup::UnknownGame));
}
