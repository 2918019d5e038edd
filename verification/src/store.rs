//! The statement with which a record is written back to the store.

use vstd::prelude::*;

verus! {

/// The assignments of an update, one placeholder per column: `a = ?, b = ?`.
pub open spec fn assignments(columns: Seq<String>) -> Seq<char>
    decreases columns.len(),
{
    if columns.len() == 0 {
        Seq::empty()
    } else if columns.len() == 1 {
        columns[0]@ + " = ?"@
    } else {
        assignments(columns.drop_last()) + ", "@ + columns.last()@ + " = ?"@
    }
}

/// The statement that updates the row with a given id in a table.
pub open spec fn update_text(table: Seq<char>, columns: Seq<String>) -> Seq<char> {
    " UPDATE "@ + table + " SET  "@ + assignments(columns) + "  WHERE id = ?"@
}

/// The update statement for a table and its columns. The values are bound
/// in the order of the columns, and the id once more at the end.
pub fn update_statement(table: &str, columns: &Vec<String>) -> (statement: String)
    ensures
        statement@ == update_text(table@, columns@),
{
    let mut statement = " UPDATE ".to_owned();
    statement.append(table);
    statement.append(" SET  ");
    let ghost head = statement@;
    let mut i: usize = 0;
    assert(columns@.take(0) =~= Seq::<String>::empty());
    assert(statement@ =~= head + assignments(columns@.take(0)));
    while i < columns.len()
        invariant
            i <= columns.len(),
            statement@ == head + assignments(columns@.take(i as int)),
        decreases columns.len() - i,
    {
        if i > 0 {
            statement.append(", ");
        }
        statement.append(columns[i].as_str());
        statement.append(" = ?");
        proof {
            let longer = columns@.take(i + 1);
            assert(longer.drop_last() =~= columns@.take(i as int));
            assert(longer.last() == columns@[i as int]);
            if i == 0 {
                assert(longer[0] == columns@[0]);
            }
            assert(statement@ =~= head + assignments(longer));
        }
        i += 1;
    }
    assert(columns@.take(i as int) =~= columns@);
    statement.append("  WHERE id = ?");
    assert(statement@ =~= update_text(table@, columns@));
    statement
}

/// The columns of a stored race, in the order of its fields.
pub fn race_columns() -> (columns: Vec<String>)
    ensures
        columns@.len() == 7,
        columns@[0]@ == "id"@,
        columns@[1]@ == "game_id"@,
        columns@[2]@ == "category_id"@,
        columns@[3]@ == "state"@,
        columns@[4]@ == "occurs"@,
        columns@[5]@ == "scheduling_message_id"@,
        columns@[6]@ == "active_message_id"@,
{
    let mut columns: Vec<String> = Vec::new();
    columns.push("id".to_owned());
    columns.push("game_id".to_owned());
    columns.push("category_id".to_owned());
    columns.push("state".to_owned());
    columns.push("occurs".to_owned());
    columns.push("scheduling_message_id".to_owned());
    columns.push("active_message_id".to_owned());
    columns
}

} // verus!
