//! The fragments that filters add to a statement.

use crate::error::{ErrorModel, QueryError};
use crate::grammar::{
    collect, lemma_collect_error_stays, lemma_collect_step, limit_fragment, offset_fragment,
    order_fragment, placeholder, predicate, predicates, where_bindings, where_cells,
    where_fragment, where_text,
};
use crate::identifier::is_valid_identifier;
use crate::json::{models, JsonModel, JsonValue};
use crate::model::{Filters, FiltersModel, OrderDirection, WhereClause};
use crate::text::{join_texts, push_decimal, texts};
use vstd::prelude::*;

verus! {

/// The marker of the `k`-th bound value.
pub fn placeholder_text(k: usize) -> (r: String)
    ensures
        r@ == placeholder(k as nat),
{
    let mut out = String::from_str("$");
    proof {
        reveal_strlit("$");
        assert("$"@ =~= seq!['$']);
    }
    push_decimal(&mut out, k as u64);
    out
}

/// `column = $k`.
pub fn predicate_text(column: &str, k: usize) -> (r: String)
    ensures
        r@ == predicate(column@, k as nat),
{
    let mut out = String::from_str(column);
    out.append(" = ");
    let marker = placeholder_text(k);
    out.append(marker.as_str());
    out
}

/// The number of predicates of the filters.
pub open spec fn where_len(filters: FiltersModel) -> nat {
    match filters.where_clause {
        Some(c) => c.entries().len(),
        None => 0,
    }
}

/// The values that the clause binds, in the order of its predicates.
pub fn where_values(clause: &WhereClause) -> (r: Result<Vec<JsonValue>, QueryError>)
    ensures
        match r {
            Ok(values) => where_bindings(clause@) == Ok::<_, ErrorModel>(models(values@)),
            Err(e) => where_bindings(clause@) == Err::<Seq<JsonModel>, _>(e@),
        },
{
    let entries = clause.entries();
    let n = entries.len();
    if n == 0 {
        return Err(QueryError::InvalidIdentifier(String::new()));
    }
    let ghost cells = where_cells(entries@);
    let mut values: Vec<JsonValue> = Vec::new();
    let mut i: usize = 0;
    assert(cells.take(0) =~= Seq::empty());
    assert(models(values@) =~= Seq::empty());
    while i < n
        invariant
            i <= n,
            n == entries@.len(),
            entries@ == clause@.entries(),
            cells == where_cells(entries@),
            collect(cells.take(i as int)) == Ok::<_, ErrorModel>(models(values@)),
        decreases n - i,
    {
        proof {
            lemma_collect_step(cells, i as int);
        }
        let column = entries.key_at(i);
        if !is_valid_identifier(column.as_str()) {
            proof {
                lemma_collect_error_stays(cells, i + 1);
            }
            return Err(QueryError::InvalidIdentifier(column.clone()));
        }
        let ghost before = models(values@);
        values.push(entries.value_at(i).clone());
        assert(models(values@) =~= before.push(entries@[i as int].1));
        i += 1;
    }
    assert(cells.take(n as int) =~= cells);
    Ok(values)
}

/// The text of the clause, its first predicate bound to the value `first`.
pub fn where_sql(clause: &WhereClause, first: usize) -> (r: String)
    requires
        first + clause@.entries().len() <= usize::MAX + 1,
    ensures
        r@ == where_text(clause@, first as nat),
{
    let entries = clause.entries();
    let n = entries.len();
    let mut pieces: Vec<String> = Vec::new();
    let mut i: usize = 0;
    while i < n
        invariant
            i <= n,
            n == entries@.len(),
            first + n <= usize::MAX + 1,
            pieces@.len() == i,
            forall|j: int|
                0 <= j < i ==> (#[trigger] pieces@[j])@ == predicate(
                    entries@[j].0,
                    (first + j) as nat,
                ),
        decreases n - i,
    {
        pieces.push(predicate_text(entries.key_at(i).as_str(), first + i));
        i += 1;
    }
    assert(texts(pieces@) =~= predicates(entries@, first as nat));
    match clause {
        WhereClause::Or(_) => {
            let mut out = String::from_str(" WHERE (");
            out.append(join_texts(&pieces, " OR ").as_str());
            out.append(")");
            out
        },
        _ => {
            let mut out = String::from_str(" WHERE ");
            out.append(join_texts(&pieces, " AND ").as_str());
            out
        },
    }
}

impl Filters {
    /// The `WHERE` fragment and the values it binds, numbered from
    /// `bind_index` on; `bind_index` is then the number of the next value.
    pub fn build_where_caluse(&self, bind_index: &mut usize) -> (r: Result<
        (String, Vec<JsonValue>),
        QueryError,
    >)
        requires
            *old(bind_index) + where_len(self@) <= usize::MAX,
        ensures
            match r {
                Ok((text, values)) => where_fragment(self@.where_clause, *old(bind_index) as nat)
                    == Ok::<_, ErrorModel>((text@, models(values@))) && *final(bind_index)
                    == *old(bind_index) + values@.len(),
                Err(e) => where_fragment(self@.where_clause, *old(bind_index) as nat) == Err::<
                    (Seq<char>, Seq<JsonModel>),
                    _,
                >(e@) && *final(bind_index) == *old(bind_index),
            },
    {
        match &self.where_clause {
            None => {
                let values: Vec<JsonValue> = Vec::new();
                assert(models(values@) =~= Seq::empty());
                Ok((String::new(), values))
            },
            Some(clause) => {
                match where_values(clause) {
                    Err(e) => Err(e),
                    Ok(values) => {
                        proof {
                            crate::grammar::lemma_collect_ok(where_cells(clause@.entries()));
                        }
                        let text = where_sql(clause, *bind_index);
                        *bind_index = *bind_index + values.len();
                        Ok((text, values))
                    },
                }
            },
        }
    }

    /// The `ORDER BY` fragment.
    pub fn build_order_by(&self) -> (r: Result<String, QueryError>)
        ensures
            match r {
                Ok(text) => order_fragment(self@.order_by) == Ok::<_, ErrorModel>(text@),
                Err(e) => order_fragment(self@.order_by) == Err::<Seq<char>, _>(e@),
            },
    {
        match &self.order_by {
            None => Ok(String::new()),
            Some(order_by) => {
                if !is_valid_identifier(order_by.column.as_str()) {
                    return Err(QueryError::InvalidIdentifier(order_by.column.clone()));
                }
                let mut out = String::from_str(" ORDER BY ");
                out.append(order_by.column.as_str());
                out.append(" ");
                match order_by.direction {
                    OrderDirection::Asc => out.append("ASC"),
                    OrderDirection::Desc => out.append("DESC"),
                }
                Ok(out)
            },
        }
    }

    /// The `LIMIT` fragment.
    pub fn build_limit(&self) -> (r: Result<String, QueryError>)
        ensures
            r matches Ok(text) && text@ == limit_fragment(self@.limit),
    {
        match self.limit {
            None => Ok(String::new()),
            Some(n) => {
                let mut out = String::from_str(" LIMIT ");
                push_decimal(&mut out, n as u64);
                Ok(out)
            },
        }
    }

    /// The `OFFSET` fragment.
    pub fn build_offset(&self) -> (r: Result<String, QueryError>)
        ensures
            r matches Ok(text) && text@ == offset_fragment(self@.offset),
    {
        match self.offset {
            None => Ok(String::new()),
            Some(n) => {
                let mut out = String::from_str(" OFFSET ");
                push_decimal(&mut out, n as u64);
                Ok(out)
            },
        }
    }
}

} // verus!
