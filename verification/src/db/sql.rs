//! The text of the statements that the drivers send for paged reads, counts
//! and row-level mutation.
//!
//! Names are written between the engine's quote marks and values as string
//! literals, so that no name and no value can end the place it is written
//! in: every quote mark inside a name is doubled, and so is every
//! apostrophe inside a value, and every backslash where the engine reads a
//! backslash in a literal as an escape.

use crate::models::connection::DatabaseType;
use crate::text::{decimal, push_decimal};
use vstd::prelude::*;
use vstd::std_specs::iter::IteratorSpec;
use vstd::string::StringExecFns;

verus! {

/// Calls `String::push`.
///
/// Trusted: the character is appended to the end of the string.
#[verifier::external_body]
fn push_char(out: &mut String, c: char)
    ensures
        final(out)@ == old(out)@.push(c),
{
    out.push(c);
}

/// The mark that an engine writes round a name.
pub open spec fn name_mark(engine: DatabaseType) -> char {
    match engine {
        DatabaseType::PostgreSQL => '"',
        DatabaseType::MySQL => '`',
    }
}

/// Whether an engine reads a backslash inside a string literal as an escape.
pub open spec fn escapes_backslash(engine: DatabaseType) -> bool {
    match engine {
        DatabaseType::PostgreSQL => false,
        DatabaseType::MySQL => true,
    }
}

/// A text in which every occurrence of the mark, and of the second mark if
/// there is one, is written twice.
pub open spec fn doubled(text: Seq<char>, mark: char, second: Option<char>) -> Seq<char>
    decreases text.len(),
{
    if text.len() == 0 {
        Seq::empty()
    } else if text.last() == mark || second == Some(text.last()) {
        doubled(text.drop_last(), mark, second).push(text.last()).push(text.last())
    } else {
        doubled(text.drop_last(), mark, second).push(text.last())
    }
}

/// A name as an engine reads it: between quote marks, with the quote marks
/// inside it doubled.
pub open spec fn quoted_name(engine: DatabaseType, name: Seq<char>) -> Seq<char> {
    seq![name_mark(engine)] + doubled(name, name_mark(engine), None) + seq![name_mark(engine)]
}

/// A value as a string literal of an engine: between apostrophes, with the
/// apostrophes inside it doubled, and the backslashes too where the engine
/// reads them as escapes.
pub open spec fn quoted_literal(engine: DatabaseType, value: Seq<char>) -> Seq<char> {
    seq!['\''] + doubled(
        value,
        '\'',
        if escapes_backslash(engine) {
            Some('\\')
        } else {
            None
        },
    ) + seq!['\'']
}

/// A table's name with its schema's: both quoted, with a dot between.
pub open spec fn qualified_name(engine: DatabaseType, schema: Seq<char>, table: Seq<char>) -> Seq<
    char,
> {
    quoted_name(engine, schema) + "."@ + quoted_name(engine, table)
}

/// The decimal numeral of an integer, with a minus sign before a negative one.
pub open spec fn signed_decimal(n: int) -> Seq<char> {
    if n < 0 {
        "-"@ + decimal((-n) as nat)
    } else {
        decimal(n as nat)
    }
}

/// The parts of a list written one after the other with a separator
/// between each two.
pub open spec fn joined(parts: Seq<Seq<char>>, separator: Seq<char>) -> Seq<char>
    decreases parts.len(),
{
    if parts.len() == 0 {
        Seq::empty()
    } else if parts.len() == 1 {
        parts[0]
    } else {
        joined(parts.drop_last(), separator) + separator + parts.last()
    }
}

/// The quoted names of a list of columns.
pub open spec fn name_parts(engine: DatabaseType, columns: Seq<String>) -> Seq<Seq<char>> {
    Seq::new(columns.len(), |i: int| quoted_name(engine, columns[i]@))
}

/// The literals of a list of values.
pub open spec fn literal_parts(engine: DatabaseType, values: Seq<String>) -> Seq<Seq<char>> {
    Seq::new(values.len(), |i: int| quoted_literal(engine, values[i]@))
}

/// For each column and the value at the same place, `name = 'value'`.
pub open spec fn equality_parts(engine: DatabaseType, columns: Seq<String>, values: Seq<String>)
    -> Seq<Seq<char>>
    recommends
        columns.len() == values.len(),
{
    Seq::new(
        columns.len(),
        |i: int| quoted_name(engine, columns[i]@) + " = "@ + quoted_literal(engine, values[i]@),
    )
}

/// The condition that picks the rows whose key columns have the given
/// values: the equalities joined by `AND`.
pub open spec fn key_condition(engine: DatabaseType, columns: Seq<String>, values: Seq<String>)
    -> Seq<char> {
    joined(equality_parts(engine, columns, values), " AND "@)
}

/// `SELECT * FROM "schema"."table" LIMIT n OFFSET m`.
pub open spec fn page_text(
    engine: DatabaseType,
    schema: Seq<char>,
    table: Seq<char>,
    limit: i64,
    offset: i64,
) -> Seq<char> {
    "SELECT * FROM "@ + qualified_name(engine, schema, table) + " LIMIT "@ + signed_decimal(
        limit as int,
    ) + " OFFSET "@ + signed_decimal(offset as int)
}

/// `SELECT COUNT(*) FROM "schema"."table"`.
pub open spec fn count_text(engine: DatabaseType, schema: Seq<char>, table: Seq<char>) -> Seq<
    char,
> {
    "SELECT COUNT(*) FROM "@ + qualified_name(engine, schema, table)
}

/// `UPDATE "schema"."table" SET "column" = 'value' WHERE` and the key condition.
pub open spec fn update_text(
    engine: DatabaseType,
    schema: Seq<char>,
    table: Seq<char>,
    column: Seq<char>,
    value: Seq<char>,
    pk_columns: Seq<String>,
    pk_values: Seq<String>,
) -> Seq<char> {
    "UPDATE "@ + qualified_name(engine, schema, table) + " SET "@ + quoted_name(engine, column)
        + " = "@ + quoted_literal(engine, value) + " WHERE "@ + key_condition(
        engine,
        pk_columns,
        pk_values,
    )
}

/// `INSERT INTO "schema"."table" ("a", "b") VALUES ('x', 'y')`.
pub open spec fn insert_text(
    engine: DatabaseType,
    schema: Seq<char>,
    table: Seq<char>,
    columns: Seq<String>,
    values: Seq<String>,
) -> Seq<char> {
    "INSERT INTO "@ + qualified_name(engine, schema, table) + " ("@ + joined(
        name_parts(engine, columns),
        ", "@,
    ) + ") VALUES ("@ + joined(literal_parts(engine, values), ", "@) + ")"@
}

/// `DELETE FROM "schema"."table" WHERE` and the key condition.
pub open spec fn delete_text(
    engine: DatabaseType,
    schema: Seq<char>,
    table: Seq<char>,
    pk_columns: Seq<String>,
    pk_values: Seq<String>,
) -> Seq<char> {
    "DELETE FROM "@ + qualified_name(engine, schema, table) + " WHERE "@ + key_condition(
        engine,
        pk_columns,
        pk_values,
    )
}

/// The mark that an engine writes round a name.
pub fn mark_of(engine: DatabaseType) -> (mark: char)
    ensures
        mark == name_mark(engine),
{
    match engine {
        DatabaseType::PostgreSQL => '"',
        DatabaseType::MySQL => '`',
    }
}

/// Appends a text with its marks doubled.
fn push_doubled(out: &mut String, text: &str, mark: char, second: Option<char>)
    ensures
        final(out)@ == old(out)@ + doubled(text@, mark, second),
{
    broadcast use vstd::string::group_string_axioms;

    for c in it: text.chars()
        invariant
            it.seq() == text@,
            out@ == old(out)@ + doubled(text@.take(it.index() as int), mark, second),
    {
        proof {
            let next = text@.take(it.index() as int + 1);
            assert(next.drop_last() =~= text@.take(it.index() as int));
            assert(next.last() == c);
        }
        let twice = c == mark || match second {
            Some(other) => c == other,
            None => false,
        };
        if twice {
            push_char(out, c);
        }
        push_char(out, c);
    }
    proof {
        assert(text@.take(text@.len() as int) =~= text@);
    }
}

/// Appends a quoted name.
fn push_name(out: &mut String, engine: DatabaseType, name: &str)
    ensures
        final(out)@ == old(out)@ + quoted_name(engine, name@),
{
    let mark = mark_of(engine);
    push_char(out, mark);
    push_doubled(out, name, mark, None);
    push_char(out, mark);
    proof {
        assert(final(out)@ =~= old(out)@ + quoted_name(engine, name@));
    }
}

/// Appends a string literal.
fn push_literal(out: &mut String, engine: DatabaseType, value: &str)
    ensures
        final(out)@ == old(out)@ + quoted_literal(engine, value@),
{
    let second = match engine {
        DatabaseType::PostgreSQL => None,
        DatabaseType::MySQL => Some('\\'),
    };
    push_char(out, '\'');
    push_doubled(out, value, '\'', second);
    push_char(out, '\'');
    proof {
        assert(final(out)@ =~= old(out)@ + quoted_literal(engine, value@));
    }
}

/// Appends a schema-qualified table name.
fn push_qualified(out: &mut String, engine: DatabaseType, schema: &str, table: &str)
    ensures
        final(out)@ == old(out)@ + qualified_name(engine, schema@, table@),
{
    push_name(out, engine, schema);
    out.append(".");
    push_name(out, engine, table);
    proof {
        assert(final(out)@ =~= old(out)@ + qualified_name(engine, schema@, table@));
    }
}

/// Appends the decimal numeral of a signed integer.
fn push_signed(out: &mut String, n: i64)
    ensures
        final(out)@ == old(out)@ + signed_decimal(n as int),
{
    if n < 0 {
        out.append("-");
        let magnitude: u64 = (-(n + 1)) as u64 + 1;
        push_decimal(out, magnitude);
        proof {
            assert(final(out)@ =~= old(out)@ + signed_decimal(n as int));
        }
    } else {
        push_decimal(out, n as u64);
    }
}

/// Appends the quoted names of the columns, with `, ` between them.
fn push_names(out: &mut String, engine: DatabaseType, columns: &Vec<String>)
    ensures
        final(out)@ == old(out)@ + joined(name_parts(engine, columns@), ", "@),
{
    let ghost parts = name_parts(engine, columns@);
    let mut i: usize = 0;
    while i < columns.len()
        invariant
            0 <= i <= columns@.len(),
            parts == name_parts(engine, columns@),
            out@ == old(out)@ + joined(parts.take(i as int), ", "@),
        decreases columns@.len() - i,
    {
        proof {
            let next = parts.take(i as int + 1);
            assert(next.drop_last() =~= parts.take(i as int));
            assert(next.last() == parts[i as int]);
        }
        if i > 0 {
            out.append(", ");
        }
        push_name(out, engine, columns[i].as_str());
        proof {
            if i > 0 {
                assert(out@ =~= old(out)@ + (joined(parts.take(i as int), ", "@) + ", "@
                    + parts[i as int]));
            } else {
                assert(joined(parts.take(0), ", "@) =~= Seq::<char>::empty());
                assert(out@ =~= old(out)@ + parts[0]);
            }
        }
        i += 1;
    }
    proof {
        assert(parts.take(columns@.len() as int) =~= parts);
    }
}

/// Appends the literals of the values, with `, ` between them.
fn push_literals(out: &mut String, engine: DatabaseType, values: &Vec<String>)
    ensures
        final(out)@ == old(out)@ + joined(literal_parts(engine, values@), ", "@),
{
    let ghost parts = literal_parts(engine, values@);
    let mut i: usize = 0;
    while i < values.len()
        invariant
            0 <= i <= values@.len(),
            parts == literal_parts(engine, values@),
            out@ == old(out)@ + joined(parts.take(i as int), ", "@),
        decreases values@.len() - i,
    {
        proof {
            let next = parts.take(i as int + 1);
            assert(next.drop_last() =~= parts.take(i as int));
            assert(next.last() == parts[i as int]);
        }
        if i > 0 {
            out.append(", ");
        }
        push_literal(out, engine, values[i].as_str());
        proof {
            if i > 0 {
                assert(out@ =~= old(out)@ + (joined(parts.take(i as int), ", "@) + ", "@
                    + parts[i as int]));
            } else {
                assert(joined(parts.take(0), ", "@) =~= Seq::<char>::empty());
                assert(out@ =~= old(out)@ + parts[0]);
            }
        }
        i += 1;
    }
    proof {
        assert(parts.take(values@.len() as int) =~= parts);
    }
}

/// Appends the key condition of as many columns and values.
fn push_condition(
    out: &mut String,
    engine: DatabaseType,
    columns: &Vec<String>,
    values: &Vec<String>,
)
    requires
        columns@.len() == values@.len(),
    ensures
        final(out)@ == old(out)@ + key_condition(engine, columns@, values@),
{
    let ghost parts = equality_parts(engine, columns@, values@);
    let mut i: usize = 0;
    while i < columns.len()
        invariant
            0 <= i <= columns@.len(),
            columns@.len() == values@.len(),
            parts == equality_parts(engine, columns@, values@),
            out@ == old(out)@ + joined(parts.take(i as int), " AND "@),
        decreases columns@.len() - i,
    {
        proof {
            let next = parts.take(i as int + 1);
            assert(next.drop_last() =~= parts.take(i as int));
            assert(next.last() == parts[i as int]);
        }
        if i > 0 {
            out.append(" AND ");
        }
        let ghost start = out@;
        push_name(out, engine, columns[i].as_str());
        out.append(" = ");
        push_literal(out, engine, values[i].as_str());
        proof {
            assert(out@ =~= start + parts[i as int]);
            if i > 0 {
                assert(out@ =~= old(out)@ + (joined(parts.take(i as int), " AND "@) + " AND "@
                    + parts[i as int]));
            } else {
                assert(joined(parts.take(0), " AND "@) =~= Seq::<char>::empty());
                assert(out@ =~= old(out)@ + parts[0]);
            }
        }
        i += 1;
    }
    proof {
        assert(parts.take(columns@.len() as int) =~= parts);
    }
}

/// A name between the engine's quote marks.
pub fn quote_name(engine: DatabaseType, name: &str) -> (text: String)
    ensures
        text@ == quoted_name(engine, name@),
{
    let mut text = String::new();
    push_name(&mut text, engine, name);
    text
}

/// A value as a string literal of the engine.
pub fn quote_literal(engine: DatabaseType, value: &str) -> (text: String)
    ensures
        text@ == quoted_literal(engine, value@),
{
    let mut text = String::new();
    push_literal(&mut text, engine, value);
    text
}

/// The statement that reads one page of a table.
pub fn page_statement(engine: DatabaseType, schema: &str, table: &str, limit: i64, offset: i64)
    -> (statement: String)
    ensures
        statement@ == page_text(engine, schema@, table@, limit, offset),
{
    let mut statement = String::from_str("SELECT * FROM ");
    push_qualified(&mut statement, engine, schema, table);
    statement.append(" LIMIT ");
    push_signed(&mut statement, limit);
    statement.append(" OFFSET ");
    push_signed(&mut statement, offset);
    proof {
        assert(statement@ =~= page_text(engine, schema@, table@, limit, offset));
    }
    statement
}

/// The statement that counts the rows of a table.
pub fn count_statement(engine: DatabaseType, schema: &str, table: &str) -> (statement: String)
    ensures
        statement@ == count_text(engine, schema@, table@),
{
    let mut statement = String::from_str("SELECT COUNT(*) FROM ");
    push_qualified(&mut statement, engine, schema, table);
    statement
}

/// The statement that sets one column of the rows with the given key.
///
/// `None` exactly when the key columns and the key values differ in number.
pub fn update_statement(
    engine: DatabaseType,
    schema: &str,
    table: &str,
    column: &str,
    value: &str,
    pk_columns: &Vec<String>,
    pk_values: &Vec<String>,
) -> (statement: Option<String>)
    ensures
        match statement {
            Some(text) => pk_columns@.len() == pk_values@.len() && text@ == update_text(
                engine,
                schema@,
                table@,
                column@,
                value@,
                pk_columns@,
                pk_values@,
            ),
            None => pk_columns@.len() != pk_values@.len(),
        },
{
    if pk_columns.len() != pk_values.len() {
        return None;
    }
    let mut text = String::from_str("UPDATE ");
    push_qualified(&mut text, engine, schema, table);
    text.append(" SET ");
    push_name(&mut text, engine, column);
    text.append(" = ");
    push_literal(&mut text, engine, value);
    text.append(" WHERE ");
    push_condition(&mut text, engine, pk_columns, pk_values);
    proof {
        assert(text@ =~= update_text(
            engine,
            schema@,
            table@,
            column@,
            value@,
            pk_columns@,
            pk_values@,
        ));
    }
    Some(text)
}

/// The statement that inserts one row with the given columns set.
///
/// `None` exactly when the columns and the values differ in number.
pub fn insert_statement(
    engine: DatabaseType,
    schema: &str,
    table: &str,
    columns: &Vec<String>,
    values: &Vec<String>,
) -> (statement: Option<String>)
    ensures
        match statement {
            Some(text) => columns@.len() == values@.len() && text@ == insert_text(
                engine,
                schema@,
                table@,
                columns@,
                values@,
            ),
            None => columns@.len() != values@.len(),
        },
{
    if columns.len() != values.len() {
        return None;
    }
    let mut text = String::from_str("INSERT INTO ");
    push_qualified(&mut text, engine, schema, table);
    text.append(" (");
    push_names(&mut text, engine, columns);
    text.append(") VALUES (");
    push_literals(&mut text, engine, values);
    text.append(")");
    proof {
        assert(text@ =~= insert_text(engine, schema@, table@, columns@, values@));
    }
    Some(text)
}

/// The statement that deletes the rows with the given key.
///
/// `None` exactly when the key columns and the key values differ in number.
pub fn delete_statement(
    engine: DatabaseType,
    schema: &str,
    table: &str,
    pk_columns: &Vec<String>,
    pk_values: &Vec<String>,
) -> (statement: Option<String>)
    ensures
        match statement {
            Some(text) => pk_columns@.len() == pk_values@.len() && text@ == delete_text(
                engine,
                schema@,
                table@,
                pk_columns@,
                pk_values@,
            ),
            None => pk_columns@.len() != pk_values@.len(),
        },
{
    if pk_columns.len() != pk_values.len() {
        return None;
    }
    let mut text = String::from_str("DELETE FROM ");
    push_qualified(&mut text, engine, schema, table);
    text.append(" WHERE ");
    push_condition(&mut text, engine, pk_columns, pk_values);
    proof {
        assert(text@ =~= delete_text(engine, schema@, table@, pk_columns@, pk_values@));
    }
    Some(text)
}

} // verus!
