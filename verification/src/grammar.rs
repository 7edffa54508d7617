//! What a statement is: the text and the bound values that each request
//! stands for, or the error with which it is refused.

use crate::error::ErrorModel;
use crate::json::JsonModel;
use crate::model::{
    BuilderModel, DatabaseAction, DeleteAction, FiltersModel, OrderByModel, OrderDirection,
    WhereModel,
};
use crate::text::{decimal, is_identifier_char, join, lowered, parse_i64, without_whitespace};
use crate::values::{keys_of, lookup};
use vstd::prelude::*;

verus! {

/// A statement (first) and the values bound to its placeholders (second),
/// or the reason for which there is none.
pub type Outcome = Result<(Seq<char>, Seq<JsonModel>), ErrorModel>;

// ---------------------------------------------------------------------------
// Identifiers and placeholders
// ---------------------------------------------------------------------------

/// A name that may stand in a statement: one character or more, each an
/// ASCII letter, a digit or `_`.
pub open spec fn is_identifier(name: Seq<char>) -> bool {
    name.len() > 0 && forall|i: int| 0 <= i < name.len() ==> is_identifier_char(#[trigger] name[i])
}

/// The marker of the `k`-th bound value.
pub open spec fn placeholder(k: nat) -> Seq<char> {
    seq!['$'] + decimal(k)
}

/// `n` markers in a row, the first for the value `first`.
pub open spec fn placeholders(first: nat, n: nat) -> Seq<Seq<char>> {
    Seq::new(n, |i: int| placeholder((first + i) as nat))
}

/// `column = $k`.
pub open spec fn predicate(column: Seq<char>, k: nat) -> Seq<char> {
    column + " = "@ + placeholder(k)
}

/// One predicate for each entry, the first for the value `first`.
pub open spec fn predicates(entries: Seq<(Seq<char>, JsonModel)>, first: nat) -> Seq<Seq<char>> {
    Seq::new(entries.len(), |i: int| predicate(entries[i].0, (first + i) as nat))
}

/// All the values where each is there, else the first error.
pub open spec fn collect(cells: Seq<Result<JsonModel, ErrorModel>>) -> Result<
    Seq<JsonModel>,
    ErrorModel,
>
    decreases cells.len(),
{
    if cells.len() == 0 {
        Ok(Seq::empty())
    } else {
        match collect(cells.drop_last()) {
            Err(e) => Err(e),
            Ok(done) => match cells.last() {
                Ok(v) => Ok(done.push(v)),
                Err(e) => Err(e),
            },
        }
    }
}

// ---------------------------------------------------------------------------
// Values and declared types
// ---------------------------------------------------------------------------

/// The kind of a value, as an error names it.
pub open spec fn kind_name(value: JsonModel) -> Seq<char> {
    match value {
        JsonModel::Null => "null"@,
        JsonModel::Bool(_) => "boolean"@,
        JsonModel::Integer(_) => "number"@,
        JsonModel::Float(_) => "number"@,
        JsonModel::Text(_) => "string"@,
        JsonModel::Array(_) => "array"@,
        JsonModel::Object(_) => "object"@,
    }
}

/// The value as the declared type of its column holds it.
///
/// `bigint` takes an integer that fits 64 signed bits, or a text that is the
/// decimal numeral of one; `text` takes a text; `boolean` takes a boolean.
pub open spec fn coerce(column: Seq<char>, value: JsonModel, declared: Seq<char>) -> Result<
    JsonModel,
    ErrorModel,
> {
    let mismatch = Err(ErrorModel::TypeMismatch(column, declared, kind_name(value)));
    if declared == "bigint"@ {
        match value {
            JsonModel::Text(s) => match parse_i64(s) {
                Some(n) => Ok(JsonModel::Integer(n as int)),
                None => mismatch,
            },
            JsonModel::Integer(n) => if i64::MIN <= n <= i64::MAX {
                Ok(value)
            } else {
                mismatch
            },
            _ => mismatch,
        }
    } else if declared == "text"@ {
        match value {
            JsonModel::Text(_) => Ok(value),
            _ => mismatch,
        }
    } else if declared == "boolean"@ {
        match value {
            JsonModel::Bool(_) => Ok(value),
            _ => mismatch,
        }
    } else {
        Err(ErrorModel::UnsupportedType(declared))
    }
}

/// The bound value of one entry of an insert or an update: the column is
/// checked, then its declared type found, then the value made of that type.
pub open spec fn typed_cell(
    table: Seq<char>,
    columns: Seq<(Seq<char>, Seq<char>)>,
    entry: (Seq<char>, JsonModel),
) -> Result<JsonModel, ErrorModel> {
    if !is_identifier(entry.0) {
        Err(ErrorModel::InvalidIdentifier(entry.0))
    } else {
        match lookup(columns, entry.0) {
            None => Err(ErrorModel::UnknownColumn(entry.0, table)),
            Some(declared) => coerce(entry.0, entry.1, declared),
        }
    }
}

pub open spec fn typed_cells(
    table: Seq<char>,
    columns: Seq<(Seq<char>, Seq<char>)>,
    entries: Seq<(Seq<char>, JsonModel)>,
) -> Seq<Result<JsonModel, ErrorModel>> {
    Seq::new(entries.len(), |i: int| typed_cell(table, columns, entries[i]))
}

/// The bound value that a row of a bulk insert gives for one column.
pub open spec fn bulk_cell(
    table: Seq<char>,
    columns: Seq<(Seq<char>, Seq<char>)>,
    row: Seq<(Seq<char>, JsonModel)>,
    column: Seq<char>,
) -> Result<JsonModel, ErrorModel> {
    if !is_identifier(column) {
        Err(ErrorModel::InvalidIdentifier(column))
    } else {
        match lookup(row, column) {
            None => Err(ErrorModel::MissingColumn(column)),
            Some(value) => match lookup(columns, column) {
                None => Err(ErrorModel::UnknownColumn(column, table)),
                Some(declared) => coerce(column, value, declared),
            },
        }
    }
}

pub open spec fn bulk_cells(
    table: Seq<char>,
    columns: Seq<(Seq<char>, Seq<char>)>,
    row: Seq<(Seq<char>, JsonModel)>,
    names: Seq<Seq<char>>,
) -> Seq<Result<JsonModel, ErrorModel>> {
    Seq::new(names.len(), |j: int| bulk_cell(table, columns, row, names[j]))
}

/// The bound values of the rows, row after row, or the first error.
pub open spec fn bulk_bindings(
    table: Seq<char>,
    columns: Seq<(Seq<char>, Seq<char>)>,
    rows: Seq<Seq<(Seq<char>, JsonModel)>>,
    names: Seq<Seq<char>>,
) -> Result<Seq<JsonModel>, ErrorModel>
    decreases rows.len(),
{
    if rows.len() == 0 {
        Ok(Seq::empty())
    } else {
        match bulk_bindings(table, columns, rows.drop_last(), names) {
            Err(e) => Err(e),
            Ok(done) => match collect(bulk_cells(table, columns, rows.last(), names)) {
                Ok(row) => Ok(done + row),
                Err(e) => Err(e),
            },
        }
    }
}

// ---------------------------------------------------------------------------
// Fragments
// ---------------------------------------------------------------------------

/// The value bound by one predicate, once its column is checked.
pub open spec fn where_cell(entry: (Seq<char>, JsonModel)) -> Result<JsonModel, ErrorModel> {
    if is_identifier(entry.0) {
        Ok(entry.1)
    } else {
        Err(ErrorModel::InvalidIdentifier(entry.0))
    }
}

pub open spec fn where_cells(entries: Seq<(Seq<char>, JsonModel)>) -> Seq<
    Result<JsonModel, ErrorModel>,
> {
    Seq::new(entries.len(), |i: int| where_cell(entries[i]))
}

/// The values that a clause binds. A clause without a predicate names no
/// column and is refused as an empty name is.
pub open spec fn where_bindings(clause: WhereModel) -> Result<Seq<JsonModel>, ErrorModel> {
    if clause.entries().len() == 0 {
        Err(ErrorModel::InvalidIdentifier(Seq::empty()))
    } else {
        collect(where_cells(clause.entries()))
    }
}

/// The text of a clause whose first predicate binds the value `first`.
pub open spec fn where_text(clause: WhereModel, first: nat) -> Seq<char> {
    match clause {
        WhereModel::And(m) => " WHERE "@ + join(predicates(m, first), " AND "@),
        WhereModel::Single(m) => " WHERE "@ + join(predicates(m, first), " AND "@),
        WhereModel::Or(m) => " WHERE ("@ + join(predicates(m, first), " OR "@) + ")"@,
    }
}

/// The `WHERE` fragment of the filters and the values it binds.
pub open spec fn where_fragment(clause: Option<WhereModel>, first: nat) -> Outcome {
    match clause {
        None => Ok((Seq::empty(), Seq::empty())),
        Some(c) => match where_bindings(c) {
            Ok(bound) => Ok((where_text(c, first), bound)),
            Err(e) => Err(e),
        },
    }
}

pub open spec fn direction_word(direction: OrderDirection) -> Seq<char> {
    match direction {
        OrderDirection::Asc => "ASC"@,
        OrderDirection::Desc => "DESC"@,
    }
}

/// The `ORDER BY` fragment.
pub open spec fn order_fragment(order_by: Option<OrderByModel>) -> Result<Seq<char>, ErrorModel> {
    match order_by {
        None => Ok(Seq::empty()),
        Some(o) => if is_identifier(o.column) {
            Ok(" ORDER BY "@ + o.column + " "@ + direction_word(o.direction))
        } else {
            Err(ErrorModel::InvalidIdentifier(o.column))
        },
    }
}

/// The `LIMIT` fragment.
pub open spec fn limit_fragment(limit: Option<u32>) -> Seq<char> {
    match limit {
        None => Seq::empty(),
        Some(n) => " LIMIT "@ + decimal(n as nat),
    }
}

/// The `OFFSET` fragment.
pub open spec fn offset_fragment(offset: Option<u32>) -> Seq<char> {
    match offset {
        None => Seq::empty(),
        Some(n) => " OFFSET "@ + decimal(n as nat),
    }
}

// ---------------------------------------------------------------------------
// Validation
// ---------------------------------------------------------------------------

/// The table as a statement names it: without white space and in lower
/// case, if what is left of it is an identifier.
pub open spec fn normalized_table(table: Seq<char>) -> Result<Seq<char>, ErrorModel> {
    let stripped = without_whitespace(table);
    if is_identifier(stripped) {
        Ok(lowered(stripped))
    } else {
        Err(ErrorModel::InvalidIdentifier(stripped))
    }
}

/// Whether the action lacks the values that it works with.
pub open spec fn lacks_values(
    action: DatabaseAction,
    values: Option<Seq<(Seq<char>, JsonModel)>>,
    bulk_values: Option<Seq<Seq<(Seq<char>, JsonModel)>>>,
) -> bool {
    match action {
        DatabaseAction::Insert | DatabaseAction::Update => match values {
            Some(v) => v.len() == 0,
            None => true,
        },
        DatabaseAction::BulkInsert => match bulk_values {
            Some(rows) => rows.len() == 0,
            None => true,
        },
        _ => false,
    }
}

/// The normalized table of a request that is fit to be assembled.
pub open spec fn validated(
    table: Seq<char>,
    action: DatabaseAction,
    values: Option<Seq<(Seq<char>, JsonModel)>>,
    bulk_values: Option<Seq<Seq<(Seq<char>, JsonModel)>>>,
) -> Result<Seq<char>, ErrorModel> {
    match normalized_table(table) {
        Err(e) => Err(e),
        Ok(name) => if lacks_values(action, values, bulk_values) {
            Err(ErrorModel::MissingValues(action))
        } else {
            Ok(name)
        },
    }
}

/// The table as validation leaves it in the request: stripped where it is
/// refused as a name, normalized otherwise.
pub open spec fn table_after_validation(table: Seq<char>) -> Seq<char> {
    match normalized_table(table) {
        Ok(name) => name,
        Err(_) => without_whitespace(table),
    }
}

// ---------------------------------------------------------------------------
// Statements
// ---------------------------------------------------------------------------

pub open spec fn select_text(table: Seq<char>) -> Seq<char> {
    "SELECT * FROM "@ + table
}

pub open spec fn insert_text(table: Seq<char>, names: Seq<Seq<char>>) -> Seq<char> {
    "INSERT INTO "@ + table + " ("@ + join(names, ", "@) + ") VALUES ("@ + join(
        placeholders(1, names.len()),
        ", "@,
    ) + ")"@
}

/// The placeholders of row `r` of a bulk insert of `n` columns.
pub open spec fn bulk_tuple(r: nat, n: nat) -> Seq<char> {
    "("@ + join(placeholders(r * n + 1, n), ", "@) + ")"@
}

pub open spec fn bulk_tuples(rows: nat, n: nat) -> Seq<Seq<char>> {
    Seq::new(rows, |r: int| bulk_tuple(r as nat, n))
}

pub open spec fn bulk_insert_text(table: Seq<char>, names: Seq<Seq<char>>, rows: nat) -> Seq<
    char,
> {
    "INSERT INTO "@ + table + " ("@ + join(names, ", "@) + ") VALUES "@ + join(
        bulk_tuples(rows, names.len()),
        ", "@,
    )
}

pub open spec fn update_text(table: Seq<char>, entries: Seq<(Seq<char>, JsonModel)>) -> Seq<
    char,
> {
    "UPDATE "@ + table + " SET "@ + join(predicates(entries, 1), ", "@)
}

pub open spec fn delete_text(table: Seq<char>) -> Seq<char> {
    "DELETE FROM "@ + table
}

pub open spec fn truncate_text(table: Seq<char>) -> Seq<char> {
    "TRUNCATE TABLE "@ + table
}

pub open spec fn drop_text(table: Seq<char>) -> Seq<char> {
    "DROP TABLE "@ + table
}

/// Whether the filters hold a `WHERE` clause.
pub open spec fn has_where(filters: Option<FiltersModel>) -> bool {
    match filters {
        Some(f) => f.where_clause is Some,
        None => false,
    }
}

/// The statement of an insert.
pub open spec fn insert_head(
    table: Seq<char>,
    values: Option<Seq<(Seq<char>, JsonModel)>>,
    columns: Option<Seq<(Seq<char>, Seq<char>)>>,
) -> Outcome {
    match (values, columns) {
        (Some(v), Some(c)) => match collect(typed_cells(table, c, v)) {
            Ok(bound) => Ok((insert_text(table, keys_of(v)), bound)),
            Err(e) => Err(e),
        },
        _ => Err(ErrorModel::MissingValues(DatabaseAction::Insert)),
    }
}

/// The statement of a bulk insert. Its columns are those of the first row.
pub open spec fn bulk_insert_head(
    table: Seq<char>,
    rows: Option<Seq<Seq<(Seq<char>, JsonModel)>>>,
    columns: Option<Seq<(Seq<char>, Seq<char>)>>,
) -> Outcome {
    match (rows, columns) {
        (Some(r), Some(c)) => if r.len() == 0 {
            Err(ErrorModel::MissingValues(DatabaseAction::BulkInsert))
        } else {
            match bulk_bindings(table, c, r, keys_of(r[0])) {
                Ok(bound) => Ok((bulk_insert_text(table, keys_of(r[0]), r.len()), bound)),
                Err(e) => Err(e),
            }
        },
        _ => Err(ErrorModel::MissingValues(DatabaseAction::BulkInsert)),
    }
}

/// The head of an update: all of it but the `WHERE` fragment.
pub open spec fn update_head(
    table: Seq<char>,
    values: Option<Seq<(Seq<char>, JsonModel)>>,
    columns: Option<Seq<(Seq<char>, Seq<char>)>>,
) -> Outcome {
    match (values, columns) {
        (Some(v), Some(c)) => match collect(typed_cells(table, c, v)) {
            Ok(bound) => Ok((update_text(table, v), bound)),
            Err(e) => Err(e),
        },
        _ => Err(ErrorModel::MissingValues(DatabaseAction::Update)),
    }
}

/// The head of a delete: `DROP TABLE` for the table, `DELETE FROM` for rows
/// that a `WHERE` clause picks, `TRUNCATE TABLE` for all rows.
pub open spec fn delete_head(
    table: Seq<char>,
    what: DeleteAction,
    filters: Option<FiltersModel>,
) -> Seq<char> {
    match what {
        DeleteAction::DeleteTable => drop_text(table),
        DeleteAction::DeleteValue => if has_where(filters) {
            delete_text(table)
        } else {
            truncate_text(table)
        },
    }
}

/// The statement of the action without what the filters add to it.
pub open spec fn head(b: BuilderModel, table: Seq<char>) -> Outcome {
    match b.action {
        DatabaseAction::Retrieve => Ok((select_text(table), Seq::empty())),
        DatabaseAction::Insert => insert_head(table, b.values, b.table_columns),
        DatabaseAction::BulkInsert => bulk_insert_head(table, b.bulk_values, b.table_columns),
        DatabaseAction::Update => update_head(table, b.values, b.table_columns),
        DatabaseAction::Delete(what) => Ok((delete_head(table, what, b.filters), Seq::empty())),
    }
}

/// What the filters add to a head that has bound `bound` values: the `WHERE`
/// fragment for every action, and for a retrieve the order, the limit and
/// the offset after it.
pub open spec fn tail(action: DatabaseAction, filters: FiltersModel, bound: nat) -> Outcome {
    match where_fragment(filters.where_clause, bound + 1) {
        Err(e) => Err(e),
        Ok((text, values)) => if action == DatabaseAction::Retrieve {
            match order_fragment(filters.order_by) {
                Err(e) => Err(e),
                Ok(order) => Ok(
                    (
                        text + order + limit_fragment(filters.limit) + offset_fragment(
                            filters.offset,
                        ),
                        values,
                    ),
                ),
            }
        } else {
            Ok((text, values))
        },
    }
}

/// The statement that the builder stands for.
pub open spec fn statement(b: BuilderModel) -> Outcome {
    match validated(b.table, b.action, b.values, b.bulk_values) {
        Err(e) => Err(e),
        Ok(table) => match head(b, table) {
            Err(e) => Err(e),
            Ok((text, bound)) => if b.action == DatabaseAction::Delete(DeleteAction::DeleteTable) {
                Ok((text, Seq::empty()))
            } else {
                match b.filters {
                    None => Ok((text, bound)),
                    Some(f) => match tail(b.action, f, bound.len()) {
                        Err(e) => Err(e),
                        Ok((more, values)) => Ok((text + more, bound + values)),
                    },
                }
            },
        },
    }
}

// ---------------------------------------------------------------------------
// Facts about `collect`
// ---------------------------------------------------------------------------

/// One more cell: the error that was there stays, else the cell decides.
pub proof fn lemma_collect_step(cells: Seq<Result<JsonModel, ErrorModel>>, i: int)
    requires
        0 <= i < cells.len(),
    ensures
        collect(cells.take(i + 1)) == match collect(cells.take(i)) {
            Err(e) => Err(e),
            Ok(done) => match cells[i] {
                Ok(v) => Ok(done.push(v)),
                Err(e) => Err(e),
            },
        },
{
    assert(cells.take(i + 1).drop_last() =~= cells.take(i));
}

/// The first error is the error of the whole.
pub proof fn lemma_collect_error_stays(cells: Seq<Result<JsonModel, ErrorModel>>, k: int)
    requires
        0 <= k <= cells.len(),
        collect(cells.take(k)) is Err,
    ensures
        collect(cells) == collect(cells.take(k)),
    decreases cells.len() - k,
{
    if k == cells.len() {
        assert(cells.take(k) =~= cells);
    } else {
        lemma_collect_step(cells, k);
        lemma_collect_error_stays(cells, k + 1);
    }
}

/// Where every cell has a value there are as many values as cells, and
/// each is the value of its cell.
pub proof fn lemma_collect_ok(cells: Seq<Result<JsonModel, ErrorModel>>)
    ensures
        match collect(cells) {
            Ok(values) => values.len() == cells.len() && forall|i: int|
                0 <= i < cells.len() ==> #[trigger] cells[i] == Ok::<_, ErrorModel>(values[i]),
            Err(e) => exists|i: int| 0 <= i < cells.len() && #[trigger] cells[i] == Err::<JsonModel, _>(e),
        },
    decreases cells.len(),
{
    if cells.len() > 0 {
        lemma_collect_ok(cells.drop_last());
        match collect(cells.drop_last()) {
            Ok(done) => {
                match cells.last() {
                    Ok(v) => {
                        let values = done.push(v);
                        assert forall|i: int| 0 <= i < cells.len() implies #[trigger] cells[i]
                            == Ok::<_, ErrorModel>(values[i]) by {
                            if i < cells.len() - 1 {
                                assert(cells.drop_last()[i] == cells[i]);
                            }
                        }
                    },
                    Err(e) => {
                        assert(cells[cells.len() - 1] == Err::<JsonModel, _>(e));
                    },
                }
            },
            Err(e) => {
                let i = choose|i: int|
                    0 <= i < cells.drop_last().len() && #[trigger] cells.drop_last()[i] == Err::<
                        JsonModel,
                        _,
                    >(e);
                assert(cells[i] == Err::<JsonModel, _>(e));
            },
        }
    }
}

// ---------------------------------------------------------------------------
// Facts about `bulk_bindings`
// ---------------------------------------------------------------------------

/// One more row: the error that was there stays, else the row decides.
pub proof fn lemma_bulk_step(
    table: Seq<char>,
    columns: Seq<(Seq<char>, Seq<char>)>,
    rows: Seq<Seq<(Seq<char>, JsonModel)>>,
    names: Seq<Seq<char>>,
    r: int,
)
    requires
        0 <= r < rows.len(),
    ensures
        bulk_bindings(table, columns, rows.take(r + 1), names) == match bulk_bindings(
            table,
            columns,
            rows.take(r),
            names,
        ) {
            Err(e) => Err(e),
            Ok(done) => match collect(bulk_cells(table, columns, rows[r], names)) {
                Ok(row) => Ok(done + row),
                Err(e) => Err(e),
            },
        },
{
    assert(rows.take(r + 1).drop_last() =~= rows.take(r));
}

/// The first error is the error of the whole.
pub proof fn lemma_bulk_error_stays(
    table: Seq<char>,
    columns: Seq<(Seq<char>, Seq<char>)>,
    rows: Seq<Seq<(Seq<char>, JsonModel)>>,
    names: Seq<Seq<char>>,
    k: int,
)
    requires
        0 <= k <= rows.len(),
        bulk_bindings(table, columns, rows.take(k), names) is Err,
    ensures
        bulk_bindings(table, columns, rows, names) == bulk_bindings(
            table,
            columns,
            rows.take(k),
            names,
        ),
    decreases rows.len() - k,
{
    if k == rows.len() {
        assert(rows.take(k) =~= rows);
    } else {
        lemma_bulk_step(table, columns, rows, names, k);
        lemma_bulk_error_stays(table, columns, rows, names, k + 1);
    }
}

/// A bulk insert binds one value for each column of each row.
pub proof fn lemma_bulk_len(
    table: Seq<char>,
    columns: Seq<(Seq<char>, Seq<char>)>,
    rows: Seq<Seq<(Seq<char>, JsonModel)>>,
    names: Seq<Seq<char>>,
)
    ensures
        bulk_bindings(table, columns, rows, names) matches Ok(bound) ==> bound.len() == rows.len()
            * names.len(),
    decreases rows.len(),
{
    if rows.len() > 0 {
        lemma_bulk_len(table, columns, rows.drop_last(), names);
        lemma_collect_ok(bulk_cells(table, columns, rows.last(), names));
        assert((rows.len() - 1) * names.len() + names.len() == rows.len() * names.len())
            by (nonlinear_arith);
    }
}

} // verus!
