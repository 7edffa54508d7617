//! The placeholders that stand in a text, and the proof that those of a
//! statement number its bound values one by one.

use crate::grammar::{
    bulk_cells, bulk_tuple, bulk_tuples, is_identifier, lemma_bulk_len, lemma_collect_ok,
    limit_fragment, normalized_table, offset_fragment, order_fragment, placeholder, placeholders,
    predicate, predicates, statement, typed_cells, where_cells, where_text,
};
use crate::json::JsonModel;
use crate::laws::{lemma_first_row_is_bound, lemma_normalized_table};
use crate::model::{BuilderModel, DatabaseAction, DeleteAction, OrderDirection, WhereModel};
use crate::text::{all_digits, decimal, digit_char, digit_value, digits_value, is_digit, join};
use crate::values::keys_of;
use vstd::prelude::*;

verus! {

/// How many digits stand at the start of the text.
pub open spec fn digit_run(s: Seq<char>) -> nat
    decreases s.len(),
{
    if s.len() > 0 && is_digit(s[0]) {
        1 + digit_run(s.skip(1))
    } else {
        0
    }
}

/// The numbers of the placeholders of a text, in the order in which they
/// stand. A placeholder is a `$` and all the digits that follow it, one at
/// least.
pub open spec fn placeholders_in(s: Seq<char>) -> Seq<nat>
    decreases s.len(),
{
    if s.len() == 0 {
        Seq::empty()
    } else if s[0] == '$' && digit_run(s.skip(1)) > 0 {
        seq![digits_value(s.subrange(1, 1 + digit_run(s.skip(1)) as int))] + placeholders_in(
            s.skip(1),
        )
    } else {
        placeholders_in(s.skip(1))
    }
}

/// `n` numbers in a row, from `first` on.
pub open spec fn range(first: nat, n: nat) -> Seq<nat> {
    Seq::new(n, |i: int| (first + i) as nat)
}

/// No `$` stands in the text.
pub open spec fn plain(s: Seq<char>) -> bool {
    forall|i: int| 0 <= i < s.len() ==> #[trigger] s[i] != '$'
}

/// The text does not begin with a digit.
pub open spec fn safe_start(s: Seq<char>) -> bool {
    s.len() == 0 || !is_digit(s[0])
}

// ---------------------------------------------------------------------------
// Texts side by side
// ---------------------------------------------------------------------------

pub proof fn lemma_digit_run_bound(s: Seq<char>)
    ensures
        digit_run(s) <= s.len(),
        forall|i: int| 0 <= i < digit_run(s) ==> is_digit(#[trigger] s[i]),
    decreases s.len(),
{
    if s.len() > 0 && is_digit(s[0]) {
        lemma_digit_run_bound(s.skip(1));
        assert forall|i: int| 0 <= i < digit_run(s) implies is_digit(#[trigger] s[i]) by {
            if i > 0 {
                assert(s[i] == s.skip(1)[i - 1]);
            }
        }
    }
}

/// A run of digits ends where a text that follows does not begin with one.
pub proof fn lemma_digit_run_concat(a: Seq<char>, b: Seq<char>)
    requires
        safe_start(b),
    ensures
        digit_run(a + b) == digit_run(a),
    decreases a.len(),
{
    if a.len() == 0 {
        assert(a + b =~= b);
    } else {
        assert((a + b)[0] == a[0]);
        assert((a + b).skip(1) =~= a.skip(1) + b);
        lemma_digit_run_concat(a.skip(1), b);
    }
}

pub proof fn lemma_digit_run_all(s: Seq<char>)
    requires
        all_digits(s),
    ensures
        digit_run(s) == s.len(),
    decreases s.len(),
{
    if s.len() > 0 {
        assert(is_digit(s[0]));
        assert forall|i: int| 0 <= i < s.skip(1).len() implies is_digit(#[trigger] s.skip(1)[i]) by {
            assert(s.skip(1)[i] == s[i + 1]);
        }
        lemma_digit_run_all(s.skip(1));
    }
}

/// A text without `$` holds no placeholder and adds none to the text that
/// follows it.
pub proof fn lemma_plain(a: Seq<char>, b: Seq<char>)
    requires
        plain(a),
    ensures
        placeholders_in(a + b) == placeholders_in(b),
        placeholders_in(a) == Seq::<nat>::empty(),
    decreases a.len(),
{
    if a.len() == 0 {
        assert(a + b =~= b);
    } else {
        assert((a + b)[0] == a[0]);
        assert(a[0] != '$');
        assert((a + b).skip(1) =~= a.skip(1) + b);
        assert forall|i: int| 0 <= i < a.skip(1).len() implies #[trigger] a.skip(1)[i] != '$' by {
            assert(a.skip(1)[i] == a[i + 1]);
        }
        lemma_plain(a.skip(1), b);
    }
}

/// The placeholders of two texts side by side are those of the first and
/// then those of the second, where the second does not begin with a digit.
pub proof fn lemma_concat(a: Seq<char>, b: Seq<char>)
    requires
        safe_start(b),
    ensures
        placeholders_in(a + b) == placeholders_in(a) + placeholders_in(b),
    decreases a.len(),
{
    if a.len() == 0 {
        assert(a + b =~= b);
        assert(placeholders_in(a) + placeholders_in(b) =~= placeholders_in(b));
    } else {
        let ab = a + b;
        assert(ab[0] == a[0]);
        assert(ab.skip(1) =~= a.skip(1) + b);
        lemma_concat(a.skip(1), b);
        lemma_digit_run_concat(a.skip(1), b);
        lemma_digit_run_bound(a.skip(1));
        let d = digit_run(a.skip(1));
        if a[0] == '$' && d > 0 {
            assert(ab.subrange(1, 1 + d as int) =~= a.subrange(1, 1 + d as int));
            assert(placeholders_in(ab) =~= placeholders_in(a) + placeholders_in(b));
        }
    }
}

pub proof fn lemma_plain_concat(a: Seq<char>, b: Seq<char>)
    requires
        plain(a),
        plain(b),
    ensures
        plain(a + b),
{
    assert forall|i: int| 0 <= i < (a + b).len() implies #[trigger] (a + b)[i] != '$' by {
        if i < a.len() {
            assert((a + b)[i] == a[i]);
        } else {
            assert((a + b)[i] == b[i - a.len()]);
        }
    }
}

pub proof fn lemma_plain_join(parts: Seq<Seq<char>>, sep: Seq<char>)
    requires
        plain(sep),
        forall|i: int| 0 <= i < parts.len() ==> plain(#[trigger] parts[i]),
    ensures
        plain(join(parts, sep)),
    decreases parts.len(),
{
    if parts.len() > 1 {
        lemma_plain_join(parts.drop_last(), sep);
        lemma_plain_concat(join(parts.drop_last(), sep), sep);
        lemma_plain_concat(join(parts.drop_last(), sep) + sep, parts.last());
    }
}

// ---------------------------------------------------------------------------
// Numerals and placeholders
// ---------------------------------------------------------------------------

/// A numeral is made of digits and writes its number.
pub proof fn lemma_decimal(n: nat)
    ensures
        decimal(n).len() > 0,
        all_digits(decimal(n)),
        plain(decimal(n)),
        digits_value(decimal(n)) == n,
    decreases n,
{
    let d = digit_char(n % 10);
    assert(is_digit(d) && digit_value(d) == n % 10 && d != '$') by {
        let u = (48 + n % 10) as u8;
        assert(48 <= u <= 57);
        assert((u as char) as u8 == u);
    }
    if n < 10 {
        assert(decimal(n) =~= seq![d]);
        assert(decimal(n).drop_last() =~= Seq::<char>::empty());
        assert(digits_value(decimal(n)) == digits_value(Seq::<char>::empty()) * 10 + digit_value(d));
    } else {
        lemma_decimal(n / 10);
        let front = decimal(n / 10);
        assert(decimal(n) == front.push(d));
        assert(decimal(n).drop_last() =~= front);
        assert(decimal(n).last() == d);
    }
}

/// A placeholder holds its own number and no other.
pub proof fn lemma_placeholder(k: nat)
    ensures
        placeholders_in(placeholder(k)) == seq![k],
        safe_start(placeholder(k)),
{
    lemma_decimal(k);
    let s = placeholder(k);
    assert(s[0] == '$');
    assert(s.skip(1) =~= decimal(k));
    lemma_digit_run_all(decimal(k));
    assert(s.subrange(1, 1 + decimal(k).len() as int) =~= decimal(k));
    lemma_plain(decimal(k), Seq::empty());
    assert(placeholders_in(s) =~= seq![k]);
}

/// `column = $k` holds the number `k` and no other.
pub proof fn lemma_predicate(column: Seq<char>, k: nat)
    requires
        is_identifier(column),
    ensures
        placeholders_in(predicate(column, k)) == seq![k],
{
    reveal_strlit(" = ");
    lemma_plain_concat(column, " = "@);
    lemma_plain(column + " = "@, placeholder(k));
    lemma_placeholder(k);
}

// ---------------------------------------------------------------------------
// Joined parts
// ---------------------------------------------------------------------------

/// Parts that each hold `width` numbers in a row, one part going on where
/// the part before it stopped, hold all those numbers in a row when they
/// are joined.
pub proof fn lemma_join(parts: Seq<Seq<char>>, sep: Seq<char>, first: nat, width: nat)
    requires
        plain(sep),
        sep.len() > 0,
        !is_digit(sep[0]),
        forall|i: int|
            0 <= i < parts.len() ==> placeholders_in(#[trigger] parts[i]) == range(
                (first + i * width) as nat,
                width,
            ),
    ensures
        placeholders_in(join(parts, sep)) == range(first, parts.len() * width),
    decreases parts.len(),
{
    let m = parts.len();
    if m == 0 {
        assert(range(first, 0) =~= Seq::<nat>::empty());
        assert(m * width == 0) by (nonlinear_arith)
            requires
                m == 0,
        ;
    } else if m == 1 {
        assert(1 * width == width) by (nonlinear_arith);
        assert(0 * width == 0) by (nonlinear_arith);
        assert(placeholders_in(parts[0]) == range((first + 0 * width) as nat, width));
    } else {
        let init = parts.drop_last();
        let last = parts.last();
        assert forall|i: int| 0 <= i < init.len() implies placeholders_in(#[trigger] init[i])
            == range((first + i * width) as nat, width) by {
            assert(init[i] == parts[i]);
        }
        lemma_join(init, sep, first, width);
        let front = join(init, sep);
        assert(join(parts, sep) =~= front + (sep + last));
        assert((sep + last)[0] == sep[0]);
        lemma_concat(front, sep + last);
        lemma_plain(sep, last);
        assert(placeholders_in(last) == range((first + (m - 1) * width) as nat, width));
        assert((m - 1) * width + width == m * width) by (nonlinear_arith);
        assert((m - 1) * width >= 0) by (nonlinear_arith)
            requires
                m >= 1,
                width >= 0,
        ;
        assert(range(first, ((m - 1) * width) as nat) + range(
            (first + (m - 1) * width) as nat,
            width,
        ) =~= range(first, m * width));
    }
}

/// Joined predicates hold one number for each entry.
pub proof fn lemma_predicates(entries: Seq<(Seq<char>, JsonModel)>, first: nat, sep: Seq<char>)
    requires
        plain(sep),
        sep.len() > 0,
        !is_digit(sep[0]),
        forall|i: int| 0 <= i < entries.len() ==> is_identifier(#[trigger] entries[i].0),
    ensures
        placeholders_in(join(predicates(entries, first), sep)) == range(first, entries.len()),
{
    let parts = predicates(entries, first);
    assert forall|i: int| 0 <= i < parts.len() implies placeholders_in(#[trigger] parts[i])
        == range((first + i * 1) as nat, 1) by {
        assert(is_identifier(entries[i].0));
        lemma_predicate(entries[i].0, (first + i) as nat);
        assert(range((first + i * 1) as nat, 1) =~= seq![(first + i) as nat]);
    }
    lemma_join(parts, sep, first, 1);
}

/// Joined placeholders hold their numbers.
pub proof fn lemma_placeholders(first: nat, n: nat)
    ensures
        placeholders_in(join(placeholders(first, n), ", "@)) == range(first, n),
{
    reveal_strlit(", ");
    let parts = placeholders(first, n);
    assert forall|i: int| 0 <= i < parts.len() implies placeholders_in(#[trigger] parts[i])
        == range((first + i * 1) as nat, 1) by {
        lemma_placeholder((first + i) as nat);
        assert(range((first + i * 1) as nat, 1) =~= seq![(first + i) as nat]);
    }
    lemma_join(parts, ", "@, first, 1);
}

/// The tuple of a row of a bulk insert holds the numbers of the row.
pub proof fn lemma_bulk_tuple(r: nat, n: nat)
    ensures
        placeholders_in(bulk_tuple(r, n)) == range(r * n + 1, n),
{
    reveal_strlit("(");
    reveal_strlit(")");
    let inner = join(placeholders(r * n + 1, n), ", "@);
    lemma_placeholders(r * n + 1, n);
    lemma_plain("("@, inner);
    lemma_concat("("@ + inner, ")"@);
    lemma_plain(")"@, Seq::empty());
    assert(range(r * n + 1, n) + Seq::<nat>::empty() =~= range(r * n + 1, n));
}

/// The tuples of a bulk insert hold the numbers of all its values.
pub proof fn lemma_bulk_tuples(rows: nat, n: nat)
    ensures
        placeholders_in(join(bulk_tuples(rows, n), ", "@)) == range(1, rows * n),
{
    reveal_strlit(", ");
    let parts = bulk_tuples(rows, n);
    assert forall|i: int| 0 <= i < parts.len() implies placeholders_in(#[trigger] parts[i])
        == range((1 + i * n) as nat, n) by {
        lemma_bulk_tuple(i as nat, n);
    }
    lemma_join(parts, ", "@, 1, n);
}

// ---------------------------------------------------------------------------
// Fragments
// ---------------------------------------------------------------------------

/// A `WHERE` fragment holds one number for each of its predicates.
pub proof fn lemma_where_text(clause: WhereModel, first: nat)
    requires
        forall|i: int|
            0 <= i < clause.entries().len() ==> is_identifier(#[trigger] clause.entries()[i].0),
    ensures
        placeholders_in(where_text(clause, first)) == range(first, clause.entries().len()),
        safe_start(where_text(clause, first)),
{
    reveal_strlit(" WHERE ");
    reveal_strlit(" WHERE (");
    reveal_strlit(" AND ");
    reveal_strlit(" OR ");
    reveal_strlit(")");
    let n = clause.entries().len();
    match clause {
        WhereModel::Or(m) => {
            let inner = join(predicates(m, first), " OR "@);
            lemma_predicates(m, first, " OR "@);
            lemma_plain(" WHERE ("@, inner);
            lemma_concat(" WHERE ("@ + inner, ")"@);
            lemma_plain(")"@, Seq::empty());
            assert(range(first, n) + Seq::<nat>::empty() =~= range(first, n));
            assert(where_text(clause, first)[0] == ' ');
        },
        WhereModel::And(m) => {
            let inner = join(predicates(m, first), " AND "@);
            lemma_predicates(m, first, " AND "@);
            lemma_plain(" WHERE "@, inner);
            assert(where_text(clause, first)[0] == ' ');
        },
        WhereModel::Single(m) => {
            let inner = join(predicates(m, first), " AND "@);
            lemma_predicates(m, first, " AND "@);
            lemma_plain(" WHERE "@, inner);
            assert(where_text(clause, first)[0] == ' ');
        },
    }
}

/// The fragments of order, limit and offset hold no placeholder, and none
/// begins with a digit.
pub proof fn lemma_plain_fragments(
    column: Seq<char>,
    direction: OrderDirection,
    limit: Option<u32>,
    offset: Option<u32>,
)
    requires
        is_identifier(column),
    ensures
        plain(" ORDER BY "@ + column + " "@ + crate::grammar::direction_word(direction)),
        safe_start(" ORDER BY "@ + column + " "@ + crate::grammar::direction_word(direction)),
        plain(limit_fragment(limit)),
        safe_start(limit_fragment(limit)),
        plain(offset_fragment(offset)),
        safe_start(offset_fragment(offset)),
{
    reveal_strlit(" ORDER BY ");
    reveal_strlit(" ");
    reveal_strlit("ASC");
    reveal_strlit("DESC");
    reveal_strlit(" LIMIT ");
    reveal_strlit(" OFFSET ");
    lemma_plain_concat(" ORDER BY "@, column);
    lemma_plain_concat(" ORDER BY "@ + column, " "@);
    lemma_plain_concat(
        " ORDER BY "@ + column + " "@,
        crate::grammar::direction_word(direction),
    );
    assert((" ORDER BY "@ + column + " "@ + crate::grammar::direction_word(direction))[0] == ' ');
    match limit {
        Some(n) => {
            lemma_decimal(n as nat);
            lemma_plain_concat(" LIMIT "@, decimal(n as nat));
            assert(limit_fragment(limit)[0] == ' ');
        },
        None => {},
    }
    match offset {
        Some(n) => {
            lemma_decimal(n as nat);
            lemma_plain_concat(" OFFSET "@, decimal(n as nat));
            assert(offset_fragment(offset)[0] == ' ');
        },
        None => {},
    }
}

/// What the filters add to a statement holds the numbers of the values it
/// binds, from the first that the head has not bound.
pub proof fn lemma_tail(
    action: DatabaseAction,
    filters: crate::model::FiltersModel,
    bound: nat,
)
    ensures
        crate::grammar::tail(action, filters, bound) matches Ok((more, values))
            ==> placeholders_in(more) == range(bound + 1, values.len()) && safe_start(more),
{
    match crate::grammar::tail(action, filters, bound) {
        Ok((more, values)) => {
            let (text, bound_values) = crate::grammar::where_fragment(
                filters.where_clause,
                bound + 1,
            )->Ok_0;
            assert(values == bound_values);
            match filters.where_clause {
                Some(c) => {
                    let cells = where_cells(c.entries());
                    lemma_collect_ok(cells);
                    assert forall|i: int| 0 <= i < c.entries().len() implies is_identifier(
                        #[trigger] c.entries()[i].0,
                    ) by {
                        assert(cells[i] is Ok);
                    }
                    lemma_where_text(c, bound + 1);
                },
                None => {
                    assert(range(bound + 1, 0) =~= Seq::<nat>::empty());
                },
            }
            assert(placeholders_in(text) == range(bound + 1, values.len()));
            assert(safe_start(text));
            if action == DatabaseAction::Retrieve {
                let order = order_fragment(filters.order_by)->Ok_0;
                let limit = limit_fragment(filters.limit);
                let offset = offset_fragment(filters.offset);
                match filters.order_by {
                    Some(o) => {
                        lemma_plain_fragments(o.column, o.direction, filters.limit, filters.offset);
                    },
                    None => {
                        lemma_plain_fragments(
                            seq!['a'],
                            OrderDirection::Asc,
                            filters.limit,
                            filters.offset,
                        );
                    },
                }
                assert(plain(order) && safe_start(order));
                lemma_concat(text, order);
                lemma_plain(order, Seq::empty());
                lemma_concat(text + order, limit);
                lemma_plain(limit, Seq::empty());
                lemma_concat(text + order + limit, offset);
                lemma_plain(offset, Seq::empty());
                let all = range(bound + 1, values.len());
                assert(all + Seq::<nat>::empty() =~= all);
                assert(more == text + order + limit + offset);
                if text.len() == 0 {
                    if order.len() == 0 {
                        if limit.len() == 0 {
                            assert(more =~= offset);
                        } else {
                            assert(more[0] == limit[0]);
                        }
                    } else {
                        assert(more[0] == order[0]);
                    }
                } else {
                    assert(more[0] == text[0]);
                }
            }
        },
        Err(e) => {},
    }
}

/// The head of a statement holds the numbers of the values it binds, from
/// one on.
pub proof fn lemma_head(b: BuilderModel, table: Seq<char>)
    requires
        is_identifier(table),
    ensures
        crate::grammar::head(b, table) matches Ok((text, bound)) ==> placeholders_in(text)
            == range(1, bound.len()),
{
    reveal_strlit("SELECT * FROM ");
    reveal_strlit("INSERT INTO ");
    reveal_strlit(" (");
    reveal_strlit(", ");
    reveal_strlit(") VALUES (");
    reveal_strlit(") VALUES ");
    reveal_strlit(")");
    reveal_strlit("UPDATE ");
    reveal_strlit(" SET ");
    reveal_strlit("DELETE FROM ");
    reveal_strlit("TRUNCATE TABLE ");
    reveal_strlit("DROP TABLE ");
    let none = Seq::<nat>::empty();
    assert(range(1, 0) =~= none);
    match crate::grammar::head(b, table) {
        Ok((text, bound)) => {
            match b.action {
                DatabaseAction::Retrieve => {
                    lemma_plain_concat("SELECT * FROM "@, table);
                    lemma_plain(text, Seq::empty());
                },
                DatabaseAction::Delete(what) => {
                    lemma_plain_concat("DELETE FROM "@, table);
                    lemma_plain_concat("TRUNCATE TABLE "@, table);
                    lemma_plain_concat("DROP TABLE "@, table);
                    lemma_plain(text, Seq::empty());
                },
                DatabaseAction::Insert => {
                    let v = b.values->Some_0;
                    let c = b.table_columns->Some_0;
                    let cells = typed_cells(table, c, v);
                    lemma_collect_ok(cells);
                    let names = keys_of(v);
                    assert forall|i: int| 0 <= i < names.len() implies plain(
                        #[trigger] names[i],
                    ) by {
                        assert(cells[i] is Ok);
                        assert(is_identifier(v[i].0));
                    }
                    lemma_plain_join(names, ", "@);
                    let p1 = "INSERT INTO "@ + table;
                    lemma_plain_concat("INSERT INTO "@, table);
                    let p2 = p1 + " ("@;
                    lemma_plain_concat(p1, " ("@);
                    let p3 = p2 + join(names, ", "@);
                    lemma_plain_concat(p2, join(names, ", "@));
                    let p4 = p3 + ") VALUES ("@;
                    lemma_plain_concat(p3, ") VALUES ("@);
                    let marks = join(placeholders(1, names.len()), ", "@);
                    lemma_placeholders(1, names.len());
                    lemma_plain(p4, marks);
                    lemma_concat(p4 + marks, ")"@);
                    lemma_plain(")"@, Seq::empty());
                    assert(range(1, names.len()) + none =~= range(1, names.len()));
                    assert(text == p4 + marks + ")"@);
                },
                DatabaseAction::Update => {
                    let v = b.values->Some_0;
                    let c = b.table_columns->Some_0;
                    let cells = typed_cells(table, c, v);
                    lemma_collect_ok(cells);
                    assert forall|i: int| 0 <= i < v.len() implies is_identifier(
                        #[trigger] v[i].0,
                    ) by {
                        assert(cells[i] is Ok);
                    }
                    lemma_predicates(v, 1, ", "@);
                    let p1 = "UPDATE "@ + table;
                    lemma_plain_concat("UPDATE "@, table);
                    let p2 = p1 + " SET "@;
                    lemma_plain_concat(p1, " SET "@);
                    lemma_plain(p2, join(predicates(v, 1), ", "@));
                },
                DatabaseAction::BulkInsert => {
                    let rows = b.bulk_values->Some_0;
                    let c = b.table_columns->Some_0;
                    let names = keys_of(rows[0]);
                    lemma_first_row_is_bound(table, c, rows, names);
                    let cells = bulk_cells(table, c, rows[0], names);
                    lemma_collect_ok(cells);
                    assert forall|i: int| 0 <= i < names.len() implies plain(
                        #[trigger] names[i],
                    ) by {
                        assert(cells[i] is Ok);
                        assert(is_identifier(names[i]));
                    }
                    lemma_bulk_len(table, c, rows, names);
                    lemma_plain_join(names, ", "@);
                    let p1 = "INSERT INTO "@ + table;
                    lemma_plain_concat("INSERT INTO "@, table);
                    let p2 = p1 + " ("@;
                    lemma_plain_concat(p1, " ("@);
                    let p3 = p2 + join(names, ", "@);
                    lemma_plain_concat(p2, join(names, ", "@));
                    let p4 = p3 + ") VALUES "@;
                    lemma_plain_concat(p3, ") VALUES "@);
                    let tuples = join(bulk_tuples(rows.len(), names.len()), ", "@);
                    lemma_bulk_tuples(rows.len(), names.len());
                    lemma_plain(p4, tuples);
                    assert(text == p4 + tuples);
                },
            }
        },
        Err(e) => {},
    }
}

/// The placeholders of a statement are `$1`, `$2`, and so on up to the
/// number of its bound values, each once and in this order.
pub proof fn lemma_placeholders_number_the_bindings(b: BuilderModel)
    ensures
        statement(b) matches Ok((text, bound)) ==> placeholders_in(text) == range(1, bound.len()),
{
    match statement(b) {
        Ok((text, bound)) => {
            lemma_normalized_table(b.table);
            let table = normalized_table(b.table)->Ok_0;
            lemma_head(b, table);
            let (head_text, head_bound) = crate::grammar::head(b, table)->Ok_0;
            if b.action == DatabaseAction::Delete(DeleteAction::DeleteTable) {
            } else {
                match b.filters {
                    None => {},
                    Some(f) => {
                        lemma_tail(b.action, f, head_bound.len());
                        let (more, values) = crate::grammar::tail(
                            b.action,
                            f,
                            head_bound.len(),
                        )->Ok_0;
                        lemma_concat(head_text, more);
                        assert(range(1, head_bound.len()) + range(
                            head_bound.len() + 1,
                            values.len(),
                        ) =~= range(1, (head_bound + values).len()));
                    },
                }
            }
        },
        Err(e) => {},
    }
}

} // verus!
