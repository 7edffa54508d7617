//! What holds of every statement.

use crate::error::ErrorModel;
use crate::grammar::{
    bulk_bindings, bulk_cells, coerce, collect, drop_text, has_where, is_identifier,
    lemma_collect_ok, normalized_table, select_text, statement, truncate_text, typed_cells,
    where_cells,
};
use crate::json::JsonModel;
use crate::model::{BuilderModel, DatabaseAction, DeleteAction};
use crate::text::{is_identifier_char, is_upper, lower_char, lowered};
use crate::values::keys_of;
use vstd::prelude::*;

verus! {

/// `text` begins with `prefix`.
pub open spec fn starts_with(text: Seq<char>, prefix: Seq<char>) -> bool {
    prefix.len() <= text.len() && text.subrange(0, prefix.len() as int) == prefix
}

/// `word` stands somewhere in `text`.
pub open spec fn contains(text: Seq<char>, word: Seq<char>) -> bool {
    exists|i: int|
        0 <= i && i + word.len() <= text.len() && #[trigger] text.subrange(i, i + word.len())
            == word
}

/// No character of the text is an ASCII capital.
pub open spec fn no_capital(text: Seq<char>) -> bool {
    forall|i: int| 0 <= i < text.len() ==> !is_upper(#[trigger] text[i])
}

/// The lower-case form of an identifier is an identifier without capitals.
pub proof fn lemma_lowered_identifier(name: Seq<char>)
    requires
        is_identifier(name),
    ensures
        is_identifier(lowered(name)),
        no_capital(lowered(name)),
{
    assert forall|i: int| 0 <= i < name.len() implies is_identifier_char(
        #[trigger] lowered(name)[i],
    ) && !is_upper(lowered(name)[i]) by {
        let c = name[i];
        assert(is_identifier_char(c));
        if is_upper(c) {
            let u = c as u8;
            assert(65 <= u <= 90);
            assert(lower_char(c) == ((u + 32) as u8) as char);
            assert(97 <= (u + 32) as u8 <= 122);
        }
    }
}

/// A table that a statement names is an identifier without capitals.
pub proof fn lemma_normalized_table(table: Seq<char>)
    ensures
        normalized_table(table) matches Ok(name) ==> is_identifier(name) && no_capital(name),
{
    if normalized_table(table) is Ok {
        lemma_lowered_identifier(crate::text::without_whitespace(table));
    }
}

/// Making a value of a type a second time changes nothing: where a value is
/// taken for a declared type, the result is taken for it and is left as it
/// is.
pub proof fn lemma_coerce_idempotent(column: Seq<char>, value: JsonModel, declared: Seq<char>)
    requires
        coerce(column, value, declared) is Ok,
    ensures
        coerce(column, coerce(column, value, declared)->Ok_0, declared) == coerce(
            column,
            value,
            declared,
        ),
{
}

/// A retrieve without filters is `SELECT * FROM` and the table, with
/// nothing bound.
pub proof fn lemma_retrieve_without_filters(b: BuilderModel)
    requires
        b.action == DatabaseAction::Retrieve,
        b.filters is None,
    ensures
        statement(b) == match normalized_table(b.table) {
            Ok(table) => Ok((select_text(table), Seq::<JsonModel>::empty())),
            Err(e) => Err(e),
        },
{
}

/// A delete of rows without a `WHERE` clause empties the table: its
/// statement is `TRUNCATE TABLE` and the table, with nothing bound.
pub proof fn lemma_delete_without_where_truncates(b: BuilderModel)
    requires
        b.action == DatabaseAction::Delete(DeleteAction::DeleteValue),
        !has_where(b.filters),
    ensures
        statement(b) == match normalized_table(b.table) {
            Ok(table) => Ok((truncate_text(table), Seq::<JsonModel>::empty())),
            Err(e) => Err(e),
        },
        statement(b) matches Ok((text, bound)) ==> starts_with(text, "TRUNCATE TABLE"@),
{
    match normalized_table(b.table) {
        Ok(table) => {
            let text = truncate_text(table);
            let none = Seq::<JsonModel>::empty();
            match b.filters {
                Some(f) => {
                    assert(f.where_clause is None);
                    assert(text + Seq::<char>::empty() =~= text);
                    assert(none + none =~= none);
                    assert(statement(b) == Ok::<_, ErrorModel>((text, none)));
                },
                None => {},
            }
            reveal_strlit("TRUNCATE TABLE ");
            reveal_strlit("TRUNCATE TABLE");
            assert(text.subrange(0, 14) =~= "TRUNCATE TABLE"@);
        },
        Err(e) => {},
    }
}

/// Dropping a table binds nothing and writes no clause: the statement is
/// `DROP TABLE` and the table, whatever the filters hold, and none of the
/// words `WHERE`, `ORDER`, `LIMIT` and `OFFSET` stands in it.
pub proof fn lemma_drop_table_is_bare(b: BuilderModel)
    requires
        b.action == DatabaseAction::Delete(DeleteAction::DeleteTable),
    ensures
        statement(b) == match normalized_table(b.table) {
            Ok(table) => Ok((drop_text(table), Seq::<JsonModel>::empty())),
            Err(e) => Err(e),
        },
        statement(b) matches Ok((text, bound)) ==> bound.len() == 0 && !contains(text, "WHERE"@)
            && !contains(text, "ORDER"@) && !contains(text, "LIMIT"@) && !contains(
            text,
            "OFFSET"@,
        ),
{
    match normalized_table(b.table) {
        Ok(table) => {
            lemma_normalized_table(b.table);
            let text = drop_text(table);
            reveal_strlit("DROP TABLE ");
            reveal_strlit("WHERE");
            reveal_strlit("ORDER");
            reveal_strlit("LIMIT");
            reveal_strlit("OFFSET");
            assert forall|i: int| 0 <= i < text.len() && is_upper(#[trigger] text[i]) implies i
                < 11 by {
                if i >= 11 {
                    assert(text[i] == table[i - 11]);
                }
            }
            assert forall|i: int| 0 <= i && i + 5 <= text.len() implies #[trigger] text.subrange(
                i,
                i + 5,
            ) != "WHERE"@ by {
                let part = text.subrange(i, i + 5);
                if part == "WHERE"@ {
                    assert(part[0] == 'W');
                    assert(text[i] == 'W');
                }
            }
            assert forall|i: int| 0 <= i && i + 5 <= text.len() implies #[trigger] text.subrange(
                i,
                i + 5,
            ) != "ORDER"@ by {
                let part = text.subrange(i, i + 5);
                if part == "ORDER"@ {
                    assert(part[0] == 'O' && part[1] == 'R');
                    assert(text[i] == 'O' && text[i + 1] == 'R');
                }
            }
            assert forall|i: int| 0 <= i && i + 5 <= text.len() implies #[trigger] text.subrange(
                i,
                i + 5,
            ) != "LIMIT"@ by {
                let part = text.subrange(i, i + 5);
                if part == "LIMIT"@ {
                    assert(part[0] == 'L' && part[1] == 'I');
                    assert(text[i] == 'L' && text[i + 1] == 'I');
                }
            }
            assert forall|i: int| 0 <= i && i + 6 <= text.len() implies #[trigger] text.subrange(
                i,
                i + 6,
            ) != "OFFSET"@ by {
                let part = text.subrange(i, i + 6);
                if part == "OFFSET"@ {
                    assert(part[0] == 'O' && part[1] == 'F');
                    assert(text[i] == 'O' && text[i + 1] == 'F');
                }
            }
        },
        Err(e) => {},
    }
}

/// Every name that a statement holds is an identifier: the table, the
/// columns of an insert, a bulk insert or an update, the columns of the
/// `WHERE` clause where one is written, and the column of the order where
/// one is written.
pub proof fn lemma_names_are_identifiers(b: BuilderModel)
    requires
        statement(b) is Ok,
    ensures
        normalized_table(b.table) matches Ok(table) && is_identifier(table),
        b.action == DatabaseAction::Insert || b.action == DatabaseAction::Update ==> (
        b.values matches Some(v) && forall|i: int|
            0 <= i < v.len() ==> is_identifier(#[trigger] v[i].0)),
        b.action == DatabaseAction::BulkInsert ==> (b.bulk_values matches Some(rows) && rows.len()
            > 0 && forall|j: int|
            0 <= j < rows[0].len() ==> is_identifier(#[trigger] rows[0][j].0)),
        b.action != DatabaseAction::Delete(DeleteAction::DeleteTable) ==> (
        b.filters matches Some(f) ==> (f.where_clause matches Some(c) ==> forall|i: int|
            0 <= i < c.entries().len() ==> is_identifier(#[trigger] c.entries()[i].0))),
        b.action == DatabaseAction::Retrieve ==> (b.filters matches Some(f) ==> (
        f.order_by matches Some(o) ==> is_identifier(o.column))),
{
    lemma_normalized_table(b.table);
    let table = normalized_table(b.table)->Ok_0;
    match b.action {
        DatabaseAction::Insert | DatabaseAction::Update => {
            let v = b.values->Some_0;
            let c = b.table_columns->Some_0;
            let cells = typed_cells(table, c, v);
            lemma_collect_ok(cells);
            assert forall|i: int| 0 <= i < v.len() implies is_identifier(#[trigger] v[i].0) by {
                assert(cells[i] is Ok);
            }
        },
        DatabaseAction::BulkInsert => {
            let rows = b.bulk_values->Some_0;
            let c = b.table_columns->Some_0;
            let names = keys_of(rows[0]);
            lemma_first_row_is_bound(table, c, rows, names);
            let cells = bulk_cells(table, c, rows[0], names);
            lemma_collect_ok(cells);
            assert forall|j: int| 0 <= j < rows[0].len() implies is_identifier(
                #[trigger] rows[0][j].0,
            ) by {
                assert(cells[j] is Ok);
            }
        },
        _ => {},
    }
    if b.action != DatabaseAction::Delete(DeleteAction::DeleteTable) {
        match b.filters {
            Some(f) => match f.where_clause {
                Some(c) => {
                    let cells = where_cells(c.entries());
                    lemma_collect_ok(cells);
                    assert forall|i: int| 0 <= i < c.entries().len() implies is_identifier(
                        #[trigger] c.entries()[i].0,
                    ) by {
                        assert(cells[i] is Ok);
                    }
                },
                None => {},
            },
            None => {},
        }
    }
}

/// Where the rows of a bulk insert are bound, the first row is.
pub proof fn lemma_first_row_is_bound(
    table: Seq<char>,
    columns: Seq<(Seq<char>, Seq<char>)>,
    rows: Seq<Seq<(Seq<char>, JsonModel)>>,
    names: Seq<Seq<char>>,
)
    requires
        rows.len() > 0,
        bulk_bindings(table, columns, rows, names) is Ok,
    ensures
        collect(bulk_cells(table, columns, rows[0], names)) is Ok,
    decreases rows.len(),
{
    if rows.len() > 1 {
        assert(rows.drop_last()[0] == rows[0]);
        lemma_first_row_is_bound(table, columns, rows.drop_last(), names);
    }
}

} // verus!
