//! Assembling the statement of a request.

use crate::coerce::convert_value;
use crate::error::{ErrorModel, QueryError};
use crate::filters::{placeholder_text, predicate_text, where_sql, where_values};
use crate::grammar::{
    bulk_bindings, bulk_cell, bulk_cells, bulk_insert_head, bulk_insert_text, bulk_tuple,
    bulk_tuples, collect, delete_head, head, insert_head, insert_text, lacks_values,
    lemma_bulk_error_stays, lemma_bulk_len, lemma_bulk_step, lemma_collect_error_stays,
    lemma_collect_ok, lemma_collect_step, normalized_table, placeholder, placeholders, predicate,
    predicates, statement, table_after_validation, typed_cell, typed_cells, update_head,
    update_text, validated, where_cells,
};
use crate::identifier::is_valid_identifier;
use crate::json::{models, JsonModel, JsonValue};
use crate::model::{
    option_rows_model, option_values_model, row_models, DatabaseAction, DeleteAction, Filters,
    QueryBuilder,
};
use crate::placeholders::{lemma_placeholders_number_the_bindings, placeholders_in, range};
use crate::text::{join_texts, strip_whitespace, texts, to_lowered};
use crate::values::{TableColumns, Values};
use vstd::prelude::*;

verus! {

/// The table as a statement names it, or the error that refuses it.
pub fn normalize_table(table: &str) -> (r: Result<String, QueryError>)
    ensures
        match r {
            Ok(name) => normalized_table(table@) == Ok::<_, ErrorModel>(name@),
            Err(e) => normalized_table(table@) == Err::<Seq<char>, _>(e@),
        },
{
    let stripped = strip_whitespace(table);
    if !is_valid_identifier(stripped.as_str()) {
        return Err(QueryError::InvalidIdentifier(stripped));
    }
    Ok(to_lowered(stripped.as_str()))
}

/// Whether the action lacks the values that it works with.
pub fn values_missing(
    action: DatabaseAction,
    values: &Option<Values>,
    bulk_values: &Option<Vec<Values>>,
) -> (r: bool)
    ensures
        r == lacks_values(action, option_values_model(*values), option_rows_model(*bulk_values)),
{
    match action {
        DatabaseAction::Insert | DatabaseAction::Update => match values {
            Some(v) => v.is_empty(),
            None => true,
        },
        DatabaseAction::BulkInsert => match bulk_values {
            Some(rows) => rows.len() == 0,
            None => true,
        },
        _ => false,
    }
}

/// Normalizes the table in place and checks that the action has the values
/// that it works with.
pub fn validate_parts(
    table: &mut String,
    action: DatabaseAction,
    values: &Option<Values>,
    bulk_values: &Option<Vec<Values>>,
) -> (r: Result<(), QueryError>)
    ensures
        final(table)@ == table_after_validation(old(table)@),
        match r {
            Ok(()) => validated(
                old(table)@,
                action,
                option_values_model(*values),
                option_rows_model(*bulk_values),
            ) == Ok::<_, ErrorModel>(final(table)@),
            Err(e) => validated(
                old(table)@,
                action,
                option_values_model(*values),
                option_rows_model(*bulk_values),
            ) == Err::<Seq<char>, _>(e@),
        },
{
    let stripped = strip_whitespace(table.as_str());
    if !is_valid_identifier(stripped.as_str()) {
        let e = QueryError::InvalidIdentifier(stripped.clone());
        *table = stripped;
        return Err(e);
    }
    *table = to_lowered(stripped.as_str());
    if values_missing(action, values, bulk_values) {
        return Err(QueryError::MissingValues(action));
    }
    Ok(())
}

/// A copy of the values.
pub fn clone_values(values: &Vec<JsonValue>) -> (r: Vec<JsonValue>)
    ensures
        models(r@) == models(values@),
{
    let mut out: Vec<JsonValue> = Vec::new();
    let mut i: usize = 0;
    while i < values.len()
        invariant
            i <= values.len(),
            out@.len() == i,
            forall|j: int| 0 <= j < i ==> out@[j]@ == values@[j]@,
        decreases values.len() - i,
    {
        out.push(values[i].clone());
        i += 1;
    }
    assert(models(out@) =~= models(values@));
    out
}

/// The bound value of one entry of an insert or an update.
fn typed_value(table: &str, columns: &TableColumns, column: &str, value: &JsonValue) -> (r:
    Result<JsonValue, QueryError>)
    ensures
        match r {
            Ok(v) => typed_cell(table@, columns@, (column@, value@)) == Ok::<_, ErrorModel>(v@),
            Err(e) => typed_cell(table@, columns@, (column@, value@)) == Err::<JsonModel, _>(e@),
        },
{
    if !is_valid_identifier(column) {
        return Err(QueryError::InvalidIdentifier(String::from_str(column)));
    }
    match columns.get(column) {
        None => Err(QueryError::UnknownColumn(String::from_str(column), String::from_str(table))),
        Some(declared) => convert_value(column, value, declared.as_str()),
    }
}

/// The bound values of an insert or an update, in the order of the entries.
fn typed_values(table: &str, columns: &TableColumns, entries: &Values) -> (r: Result<
    Vec<JsonValue>,
    QueryError,
>)
    ensures
        match r {
            Ok(values) => collect(typed_cells(table@, columns@, entries@)) == Ok::<_, ErrorModel>(
                models(values@),
            ),
            Err(e) => collect(typed_cells(table@, columns@, entries@)) == Err::<Seq<JsonModel>, _>(
                e@,
            ),
        },
{
    let n = entries.len();
    let ghost cells = typed_cells(table@, columns@, entries@);
    let mut values: Vec<JsonValue> = Vec::new();
    let mut i: usize = 0;
    assert(cells.take(0) =~= Seq::empty());
    assert(models(values@) =~= Seq::empty());
    while i < n
        invariant
            i <= n,
            n == entries@.len(),
            cells == typed_cells(table@, columns@, entries@),
            collect(cells.take(i as int)) == Ok::<_, ErrorModel>(models(values@)),
        decreases n - i,
    {
        proof {
            lemma_collect_step(cells, i as int);
        }
        match typed_value(table, columns, entries.key_at(i).as_str(), entries.value_at(i)) {
            Err(e) => {
                proof {
                    lemma_collect_error_stays(cells, i + 1);
                }
                return Err(e);
            },
            Ok(v) => {
                let ghost before = models(values@);
                values.push(v);
                assert(models(values@) =~= before.push(v@));
            },
        }
        i += 1;
    }
    assert(cells.take(n as int) =~= cells);
    Ok(values)
}

/// The bound value that a row of a bulk insert gives for one column.
fn bulk_value(table: &str, columns: &TableColumns, row: &Values, column: &str) -> (r: Result<
    JsonValue,
    QueryError,
>)
    ensures
        match r {
            Ok(v) => bulk_cell(table@, columns@, row@, column@) == Ok::<_, ErrorModel>(v@),
            Err(e) => bulk_cell(table@, columns@, row@, column@) == Err::<JsonModel, _>(e@),
        },
{
    if !is_valid_identifier(column) {
        return Err(QueryError::InvalidIdentifier(String::from_str(column)));
    }
    match row.get(column) {
        None => Err(QueryError::MissingColumn(String::from_str(column))),
        Some(value) => match columns.get(column) {
            None => Err(
                QueryError::UnknownColumn(String::from_str(column), String::from_str(table)),
            ),
            Some(declared) => convert_value(column, value, declared.as_str()),
        },
    }
}

/// The bound values of a bulk insert, row after row.
fn bulk_values_of(table: &str, columns: &TableColumns, rows: &Vec<Values>, names: &Vec<String>) -> (r:
    Result<Vec<JsonValue>, QueryError>)
    ensures
        match r {
            Ok(values) => bulk_bindings(table@, columns@, row_models(rows@), texts(names@)) == Ok::<
                _,
                ErrorModel,
            >(models(values@)),
            Err(e) => bulk_bindings(table@, columns@, row_models(rows@), texts(names@)) == Err::<
                Seq<JsonModel>,
                _,
            >(e@),
        },
{
    let ghost all = row_models(rows@);
    let ghost cols = texts(names@);
    let mut values: Vec<JsonValue> = Vec::new();
    let mut r: usize = 0;
    assert(all.take(0) =~= Seq::empty());
    assert(models(values@) =~= Seq::empty());
    while r < rows.len()
        invariant
            r <= rows.len(),
            all == row_models(rows@),
            cols == texts(names@),
            bulk_bindings(table@, columns@, all.take(r as int), cols) == Ok::<_, ErrorModel>(
                models(values@),
            ),
        decreases rows.len() - r,
    {
        let row = &rows[r];
        let ghost cells = bulk_cells(table@, columns@, row@, cols);
        let ghost done = models(values@);
        let ghost mut part: Seq<JsonModel> = Seq::empty();
        proof {
            lemma_bulk_step(table@, columns@, all, cols, r as int);
            assert(all[r as int] == row@);
            assert(cells.take(0) =~= Seq::empty());
            assert(done + part =~= done);
        }
        let mut j: usize = 0;
        while j < names.len()
            invariant
                j <= names.len(),
                r < rows.len(),
                all == row_models(rows@),
                cols == texts(names@),
                row == &rows@[r as int],
                cells == bulk_cells(table@, columns@, row@, cols),
                collect(cells.take(j as int)) == Ok::<_, ErrorModel>(part),
                models(values@) == done + part,
                bulk_bindings(table@, columns@, all.take(r as int), cols) == Ok::<_, ErrorModel>(
                    done,
                ),
                bulk_bindings(table@, columns@, all.take(r + 1), cols) == match collect(cells) {
                    Ok(row_values) => Ok(done + row_values),
                    Err(e) => Err::<Seq<JsonModel>, _>(e),
                },
            decreases names.len() - j,
        {
            proof {
                lemma_collect_step(cells, j as int);
            }
            match bulk_value(table, columns, row, names[j].as_str()) {
                Err(e) => {
                    proof {
                        lemma_collect_error_stays(cells, j + 1);
                        lemma_bulk_error_stays(table@, columns@, all, cols, r + 1);
                    }
                    return Err(e);
                },
                Ok(v) => {
                    let ghost before = models(values@);
                    values.push(v);
                    proof {
                        assert(models(values@) =~= before.push(v@));
                        assert((done + part).push(v@) =~= done + part.push(v@));
                        part = part.push(v@);
                    }
                },
            }
            j += 1;
        }
        assert(cells.take(names.len() as int) =~= cells);
        r += 1;
    }
    assert(all.take(rows.len() as int) =~= all);
    Ok(values)
}

/// `n` markers, the first for the value `first`.
fn placeholder_texts(first: usize, n: usize) -> (r: Vec<String>)
    requires
        first + n <= usize::MAX + 1,
    ensures
        texts(r@) == placeholders(first as nat, n as nat),
{
    let mut marks: Vec<String> = Vec::new();
    let mut i: usize = 0;
    while i < n
        invariant
            i <= n,
            first + n <= usize::MAX + 1,
            marks@.len() == i,
            forall|j: int| 0 <= j < i ==> (#[trigger] marks@[j])@ == placeholder((first + j) as nat),
        decreases n - i,
    {
        marks.push(placeholder_text(first + i));
        i += 1;
    }
    assert(texts(marks@) =~= placeholders(first as nat, n as nat));
    marks
}

/// The text of an insert of the named columns.
fn insert_sql(table: &str, names: &Vec<String>) -> (r: String)
    ensures
        r@ == insert_text(table@, texts(names@)),
{
    let marks = placeholder_texts(1, names.len());
    let mut out = String::from_str("INSERT INTO ");
    out.append(table);
    out.append(" (");
    out.append(join_texts(names, ", ").as_str());
    out.append(") VALUES (");
    out.append(join_texts(&marks, ", ").as_str());
    out.append(")");
    out
}

/// The text of a bulk insert of `rows` rows of the named columns.
fn bulk_insert_sql(table: &str, names: &Vec<String>, rows: usize) -> (r: String)
    requires
        rows * names@.len() <= usize::MAX,
    ensures
        r@ == bulk_insert_text(table@, texts(names@), rows as nat),
{
    let n = names.len();
    let mut tuples: Vec<String> = Vec::new();
    let mut k: usize = 0;
    let mut base: usize = 0;
    while k < rows
        invariant
            k <= rows,
            n == names@.len(),
            rows * n <= usize::MAX,
            base == k * n,
            tuples@.len() == k,
            forall|m: int| 0 <= m < k ==> (#[trigger] tuples@[m])@ == bulk_tuple(m as nat, n as nat),
        decreases rows - k,
    {
        assert((k + 1) * n <= rows * n) by (nonlinear_arith)
            requires
                k < rows,
        ;
        assert((k + 1) * n == k * n + n) by (nonlinear_arith);
        let first: usize = if n == 0 {
            1
        } else {
            base + 1
        };
        let marks = placeholder_texts(first, n);
        assert(placeholders(first as nat, n as nat) =~= placeholders((k * n + 1) as nat, n as nat));
        let mut tuple = String::from_str("(");
        tuple.append(join_texts(&marks, ", ").as_str());
        tuple.append(")");
        tuples.push(tuple);
        base = base + n;
        k += 1;
    }
    assert(texts(tuples@) =~= bulk_tuples(rows as nat, n as nat));
    let mut out = String::from_str("INSERT INTO ");
    out.append(table);
    out.append(" (");
    out.append(join_texts(names, ", ").as_str());
    out.append(") VALUES ");
    out.append(join_texts(&tuples, ", ").as_str());
    out
}

/// The head of an update of the entries.
fn update_sql(table: &str, entries: &Values) -> (r: String)
    ensures
        r@ == update_text(table@, entries@),
{
    let n = entries.len();
    let mut pieces: Vec<String> = Vec::new();
    let mut i: usize = 0;
    while i < n
        invariant
            i <= n,
            n == entries@.len(),
            pieces@.len() == i,
            forall|j: int|
                0 <= j < i ==> (#[trigger] pieces@[j])@ == predicate(entries@[j].0, (1 + j) as nat),
        decreases n - i,
    {
        pieces.push(predicate_text(entries.key_at(i).as_str(), i + 1));
        i += 1;
    }
    assert(texts(pieces@) =~= predicates(entries@, 1));
    let mut out = String::from_str("UPDATE ");
    out.append(table);
    out.append(" SET ");
    out.append(join_texts(&pieces, ", ").as_str());
    out
}

impl QueryBuilder {
    /// The builder itself.
    pub fn from(query_builder: QueryBuilder) -> (r: Self)
        ensures
            r == query_builder,
    {
        query_builder
    }

    /// A builder for one request, with nothing bound yet.
    pub fn new(
        table: String,
        action: DatabaseAction,
        bulk_values: Option<Vec<Values>>,
        values: Option<Values>,
        table_columns: Option<TableColumns>,
        filters: Option<Filters>,
    ) -> (r: Self)
        ensures
            r.table == table,
            r.action == action,
            r.bulk_values == bulk_values,
            r.values == values,
            r.table_columns == table_columns,
            r.filters == filters,
            r.bind_params@.len() == 0,
    {
        QueryBuilder {
            table,
            action,
            bulk_values,
            values,
            filters,
            table_columns,
            bind_params: Vec::new(),
        }
    }

    /// The statement of an insert into the builder's table, which is taken
    /// as it stands.
    fn build_insert_query(&self) -> (r: Result<(String, Vec<JsonValue>), QueryError>)
        ensures
            match r {
                Ok((text, values)) => insert_head(
                    self@.table,
                    self@.values,
                    self@.table_columns,
                ) == Ok::<_, ErrorModel>((text@, models(values@))),
                Err(e) => insert_head(self@.table, self@.values, self@.table_columns) == Err::<
                    (Seq<char>, Seq<JsonModel>),
                    _,
                >(e@),
            },
    {
        match (&self.values, &self.table_columns) {
            (Some(entries), Some(columns)) => {
                match typed_values(self.table.as_str(), columns, entries) {
                    Err(e) => Err(e),
                    Ok(values) => {
                        let names = entries.keys();
                        Ok((insert_sql(self.table.as_str(), &names), values))
                    },
                }
            },
            _ => Err(QueryError::MissingValues(DatabaseAction::Insert)),
        }
    }

    /// The statement of a bulk insert into the builder's table, which is
    /// taken as it stands.
    fn build_bulk_insert_query(&self) -> (r: Result<(String, Vec<JsonValue>), QueryError>)
        ensures
            match r {
                Ok((text, values)) => bulk_insert_head(
                    self@.table,
                    self@.bulk_values,
                    self@.table_columns,
                ) == Ok::<_, ErrorModel>((text@, models(values@))),
                Err(e) => bulk_insert_head(self@.table, self@.bulk_values, self@.table_columns)
                    == Err::<(Seq<char>, Seq<JsonModel>), _>(e@),
            },
    {
        match (&self.bulk_values, &self.table_columns) {
            (Some(rows), Some(columns)) => {
                if rows.len() == 0 {
                    return Err(QueryError::MissingValues(DatabaseAction::BulkInsert));
                }
                let names = rows[0].keys();
                assert(row_models(rows@)[0] == rows@[0]@);
                match bulk_values_of(self.table.as_str(), columns, rows, &names) {
                    Err(e) => Err(e),
                    Ok(values) => {
                        proof {
                            lemma_bulk_len(
                                self@.table,
                                columns@,
                                row_models(rows@),
                                texts(names@),
                            );
                            assert(values@.len() == rows@.len() * names@.len());
                        }
                        assert(values@.len() == values.len());
                        Ok((bulk_insert_sql(self.table.as_str(), &names, rows.len()), values))
                    },
                }
            },
            _ => Err(QueryError::MissingValues(DatabaseAction::BulkInsert)),
        }
    }

    /// The head of an update of the builder's table, which is taken as it
    /// stands.
    fn build_update_set(&self) -> (r: Result<(String, Vec<JsonValue>), QueryError>)
        ensures
            match r {
                Ok((text, values)) => update_head(
                    self@.table,
                    self@.values,
                    self@.table_columns,
                ) == Ok::<_, ErrorModel>((text@, models(values@))),
                Err(e) => update_head(self@.table, self@.values, self@.table_columns) == Err::<
                    (Seq<char>, Seq<JsonModel>),
                    _,
                >(e@),
            },
    {
        match (&self.values, &self.table_columns) {
            (Some(entries), Some(columns)) => {
                match typed_values(self.table.as_str(), columns, entries) {
                    Err(e) => Err(e),
                    Ok(values) => Ok((update_sql(self.table.as_str(), entries), values)),
                }
            },
            _ => Err(QueryError::MissingValues(DatabaseAction::Update)),
        }
    }

    /// The head of a delete on the builder's table, which is taken as it
    /// stands.
    fn build_delete_query(&self, del_action: DeleteAction) -> (r: String)
        ensures
            r@ == delete_head(self@.table, del_action, self@.filters),
    {
        let has_where = match &self.filters {
            Some(f) => f.where_clause.is_some(),
            None => false,
        };
        let mut out = match del_action {
            DeleteAction::DeleteTable => String::from_str("DROP TABLE "),
            DeleteAction::DeleteValue => if has_where {
                String::from_str("DELETE FROM ")
            } else {
                String::from_str("TRUNCATE TABLE ")
            },
        };
        out.append(self.table.as_str());
        out
    }

    /// The head of the builder's action on its table, which is taken as it
    /// stands.
    fn build_head(&self) -> (r: Result<(String, Vec<JsonValue>), QueryError>)
        ensures
            match r {
                Ok((text, values)) => head(self@, self@.table) == Ok::<_, ErrorModel>(
                    (text@, models(values@)),
                ),
                Err(e) => head(self@, self@.table) == Err::<(Seq<char>, Seq<JsonModel>), _>(e@),
            },
    {
        match self.action {
            DatabaseAction::Retrieve => {
                let mut out = String::from_str("SELECT * FROM ");
                out.append(self.table.as_str());
                let values: Vec<JsonValue> = Vec::new();
                assert(models(values@) =~= Seq::empty());
                Ok((out, values))
            },
            DatabaseAction::Insert => self.build_insert_query(),
            DatabaseAction::BulkInsert => self.build_bulk_insert_query(),
            DatabaseAction::Update => self.build_update_set(),
            DatabaseAction::Delete(what) => {
                let values: Vec<JsonValue> = Vec::new();
                assert(models(values@) =~= Seq::empty());
                Ok((self.build_delete_query(what), values))
            },
        }
    }

    /// Assembles the statement of the request and the values bound to its
    /// placeholders.
    ///
    /// The table is normalized in place first, as validation does, and
    /// `bind_params` is left holding the bound values of the statement, or
    /// nothing where there is no statement.
    pub fn build_query(&mut self) -> (r: Result<(String, Vec<JsonValue>), QueryError>)
        ensures
            final(self).table@ == table_after_validation(old(self).table@),
            final(self).action == old(self).action,
            final(self).filters == old(self).filters,
            final(self).bulk_values == old(self).bulk_values,
            final(self).values == old(self).values,
            final(self).table_columns == old(self).table_columns,
            match r {
                Ok((text, values)) => statement(old(self)@) == Ok::<_, ErrorModel>(
                    (text@, models(values@)),
                ) && models(final(self).bind_params@) == models(values@),
                Err(e) => statement(old(self)@) == Err::<(Seq<char>, Seq<JsonModel>), _>(e@)
                    && final(self).bind_params@.len() == 0,
            },
            r matches Ok((text, values)) ==> placeholders_in(text@) == range(1, values@.len()),
    {
        proof {
            lemma_placeholders_number_the_bindings(self@);
        }
        self.bind_params = Vec::new();
        match validate_parts(&mut self.table, self.action, &self.values, &self.bulk_values) {
            Err(e) => {
                return Err(e);
            },
            Ok(()) => {},
        }
        proof {
            assert(head(self@, self@.table) == head(old(self)@, self@.table));
        }
        let (mut query, mut bindings) = match self.build_head() {
            Err(e) => {
                return Err(e);
            },
            Ok(pair) => pair,
        };
        let ghost head_text = query@;
        let ghost head_bound = models(bindings@);
        match self.action {
            DatabaseAction::Delete(DeleteAction::DeleteTable) => {
                let none: Vec<JsonValue> = Vec::new();
                assert(models(none@) =~= Seq::empty());
                assert(models(self.bind_params@) =~= Seq::empty());
                return Ok((query, none));
            },
            _ => {},
        }
        match &self.filters {
            None => {},
            Some(filters) => {
                let ghost mut where_part: Seq<char> = Seq::empty();
                let ghost mut where_bound: Seq<JsonModel> = Seq::empty();
                match &filters.where_clause {
                    None => {
                        proof {
                            assert(query@ =~= head_text + where_part);
                            assert(models(bindings@) =~= head_bound + where_bound);
                        }
                    },
                    Some(clause) => {
                        let mut bound = match where_values(clause) {
                            Err(e) => {
                                return Err(e);
                            },
                            Ok(bound) => bound,
                        };
                        proof {
                            lemma_collect_ok(where_cells(clause@.entries()));
                            where_bound = models(bound@);
                        }
                        let before = bindings.len();
                        bindings.append(&mut bound);
                        assert(bindings@.len() == bindings.len());
                        let text = where_sql(clause, before + 1);
                        query.append(text.as_str());
                        proof {
                            where_part = text@;
                            assert(models(bindings@) =~= head_bound + where_bound);
                        }
                    },
                }
                match self.action {
                    DatabaseAction::Retrieve => {
                        let order = match filters.build_order_by() {
                            Err(e) => {
                                return Err(e);
                            },
                            Ok(order) => order,
                        };
                        query.append(order.as_str());
                        let limit = match filters.build_limit() {
                            Err(e) => {
                                return Err(e);
                            },
                            Ok(limit) => limit,
                        };
                        query.append(limit.as_str());
                        let offset = match filters.build_offset() {
                            Err(e) => {
                                return Err(e);
                            },
                            Ok(offset) => offset,
                        };
                        query.append(offset.as_str());
                        proof {
                            assert(query@ =~= head_text + (where_part + order@ + limit@ + offset@));
                        }
                    },
                    _ => {},
                }
            },
        }
        self.bind_params = clone_values(&bindings);
        Ok((query, bindings))
    }
}

} // verus!
