//! The request, its parts, and the working value from which a statement is
//! assembled, each with the model that the contracts speak of.

use crate::json::{models, JsonModel, JsonValue};
use crate::values::{TableColumns, Values};
use vstd::prelude::*;

verus! {

/// What a delete removes: the whole table, or rows of it.
#[derive(Debug, Clone, Copy, PartialEq, Eq, Structural)]
pub enum DeleteAction {
    DeleteTable,
    DeleteValue,
}

/// The operation that a request asks for.
#[derive(Debug, Clone, Copy, PartialEq, Eq, Structural)]
pub enum DatabaseAction {
    Insert,
    BulkInsert,
    Delete(DeleteAction),
    Update,
    Retrieve,
}

impl Default for DatabaseAction {
    fn default() -> (r: Self)
        ensures
            r == DatabaseAction::Retrieve,
    {
        DatabaseAction::Retrieve
    }
}

#[derive(Debug, Clone, Copy, PartialEq, Eq, Structural)]
pub enum OrderDirection {
    Asc,
    Desc,
}

impl OrderDirection {
    /// The direction that a word names, whatever the case of its letters.
    pub open spec fn named(word: Seq<char>) -> Option<OrderDirection> {
        if crate::text::lowered(word) == "asc"@ {
            Some(OrderDirection::Asc)
        } else if crate::text::lowered(word) == "desc"@ {
            Some(OrderDirection::Desc)
        } else {
            None
        }
    }

    /// Reads a direction from `asc` or `desc`, in any case of the letters.
    pub fn from_str(s: &str) -> (r: Result<Self, String>)
        ensures
            match r {
                Ok(direction) => OrderDirection::named(s@) == Some(direction),
                Err(m) => OrderDirection::named(s@) is None && m@
                    == "invalid order_direction type: "@ + s@,
            },
    {
        let lower = crate::text::to_lowered(s);
        if crate::text::same_text(lower.as_str(), "asc") {
            Ok(OrderDirection::Asc)
        } else if crate::text::same_text(lower.as_str(), "desc") {
            Ok(OrderDirection::Desc)
        } else {
            let mut message = String::from_str("invalid order_direction type: ");
            message.append(s);
            Err(message)
        }
    }
}

impl DatabaseAction {
    /// The action that a word names, whatever the case of its letters. A
    /// delete that is named by a word is one of rows.
    pub open spec fn named(word: Seq<char>) -> Option<DatabaseAction> {
        if crate::text::lowered(word) == "insert"@ {
            Some(DatabaseAction::Insert)
        } else if crate::text::lowered(word) == "delete"@ {
            Some(DatabaseAction::Delete(DeleteAction::DeleteValue))
        } else if crate::text::lowered(word) == "update"@ {
            Some(DatabaseAction::Update)
        } else {
            None
        }
    }

    /// Reads an action from `insert`, `delete` or `update`, in any case of
    /// the letters.
    pub fn from_str(s: &str) -> (r: Result<Self, String>)
        ensures
            match r {
                Ok(action) => DatabaseAction::named(s@) == Some(action),
                Err(m) => DatabaseAction::named(s@) is None && m@
                    == "invalid database_action type: "@ + s@,
            },
    {
        let lower = crate::text::to_lowered(s);
        if crate::text::same_text(lower.as_str(), "insert") {
            Ok(DatabaseAction::Insert)
        } else if crate::text::same_text(lower.as_str(), "delete") {
            Ok(DatabaseAction::Delete(DeleteAction::DeleteValue))
        } else if crate::text::same_text(lower.as_str(), "update") {
            Ok(DatabaseAction::Update)
        } else {
            let mut message = String::from_str("invalid database_action type: ");
            message.append(s);
            Err(message)
        }
    }
}

#[derive(Debug, PartialEq, Eq)]
pub struct OrderBy {
    pub column: String,
    pub direction: OrderDirection,
}

pub struct OrderByModel {
    pub column: Seq<char>,
    pub direction: OrderDirection,
}

impl View for OrderBy {
    type V = OrderByModel;

    open spec fn view(&self) -> OrderByModel {
        OrderByModel { column: self.column@, direction: self.direction }
    }
}

impl Clone for OrderBy {
    fn clone(&self) -> (r: Self)
        ensures
            r@ == self@,
    {
        OrderBy { column: self.column.clone(), direction: self.direction }
    }
}

/// Equality predicates on columns, and how they are combined. `Single` is
/// combined as `And` is.
#[derive(Debug, PartialEq, Eq)]
pub enum WhereClause {
    And(Values),
    Or(Values),
    Single(Values),
}

pub enum WhereModel {
    And(Seq<(Seq<char>, JsonModel)>),
    Or(Seq<(Seq<char>, JsonModel)>),
    Single(Seq<(Seq<char>, JsonModel)>),
}

impl WhereModel {
    /// The predicates: each a column and the value it is compared with.
    pub open spec fn entries(self) -> Seq<(Seq<char>, JsonModel)> {
        match self {
            WhereModel::And(m) => m,
            WhereModel::Or(m) => m,
            WhereModel::Single(m) => m,
        }
    }
}

impl View for WhereClause {
    type V = WhereModel;

    open spec fn view(&self) -> WhereModel {
        match self {
            WhereClause::And(m) => WhereModel::And(m@),
            WhereClause::Or(m) => WhereModel::Or(m@),
            WhereClause::Single(m) => WhereModel::Single(m@),
        }
    }
}

impl WhereClause {
    /// The predicates of the clause.
    pub fn entries(&self) -> (r: &Values)
        ensures
            r@ == self@.entries(),
    {
        match self {
            WhereClause::And(m) => m,
            WhereClause::Or(m) => m,
            WhereClause::Single(m) => m,
        }
    }
}

impl Clone for WhereClause {
    fn clone(&self) -> (r: Self)
        ensures
            r@ == self@,
    {
        match self {
            WhereClause::And(m) => WhereClause::And(m.clone()),
            WhereClause::Or(m) => WhereClause::Or(m.clone()),
            WhereClause::Single(m) => WhereClause::Single(m.clone()),
        }
    }
}

/// The conditions of a request: which rows, in what order, how many.
#[derive(Debug, PartialEq, Eq)]
pub struct Filters {
    pub where_clause: Option<WhereClause>,
    pub order_by: Option<OrderBy>,
    pub limit: Option<u32>,
    pub offset: Option<u32>,
}

pub struct FiltersModel {
    pub where_clause: Option<WhereModel>,
    pub order_by: Option<OrderByModel>,
    pub limit: Option<u32>,
    pub offset: Option<u32>,
}

impl View for Filters {
    type V = FiltersModel;

    open spec fn view(&self) -> FiltersModel {
        FiltersModel {
            where_clause: match self.where_clause {
                Some(w) => Some(w@),
                None => None,
            },
            order_by: match self.order_by {
                Some(o) => Some(o@),
                None => None,
            },
            limit: self.limit,
            offset: self.offset,
        }
    }
}

impl Default for Filters {
    fn default() -> (r: Self)
        ensures
            r@ == (FiltersModel { where_clause: None, order_by: None, limit: None, offset: None }),
    {
        Filters { where_clause: None, order_by: None, limit: None, offset: None }
    }
}

impl Clone for Filters {
    fn clone(&self) -> (r: Self)
        ensures
            r@ == self@,
    {
        Filters {
            where_clause: match &self.where_clause {
                Some(w) => Some(w.clone()),
                None => None,
            },
            order_by: match &self.order_by {
                Some(o) => Some(o.clone()),
                None => None,
            },
            limit: self.limit,
            offset: self.offset,
        }
    }
}

/// The views of the rows of a bulk insert.
pub open spec fn row_models(rows: Seq<Values>) -> Seq<Seq<(Seq<char>, JsonModel)>> {
    Seq::new(rows.len(), |i: int| rows[i]@)
}

pub open spec fn option_values_model(values: Option<Values>) -> Option<Seq<(Seq<char>, JsonModel)>> {
    match values {
        Some(v) => Some(v@),
        None => None,
    }
}

pub open spec fn option_rows_model(rows: Option<Vec<Values>>) -> Option<
    Seq<Seq<(Seq<char>, JsonModel)>>,
> {
    match rows {
        Some(r) => Some(row_models(r@)),
        None => None,
    }
}

pub open spec fn option_filters_model(filters: Option<Filters>) -> Option<FiltersModel> {
    match filters {
        Some(f) => Some(f@),
        None => None,
    }
}

pub open spec fn option_columns_model(columns: Option<TableColumns>) -> Option<
    Seq<(Seq<char>, Seq<char>)>,
> {
    match columns {
        Some(c) => Some(c@),
        None => None,
    }
}

/// A request as it arrives: the table, the action, and what the action
/// works with.
#[derive(Debug, PartialEq, Eq)]
pub struct DatabaseRequest {
    pub table: String,
    pub action: DatabaseAction,
    pub values: Option<Values>,
    pub bulk_values: Option<Vec<Values>>,
    pub filters: Option<Filters>,
}

pub struct RequestModel {
    pub table: Seq<char>,
    pub action: DatabaseAction,
    pub values: Option<Seq<(Seq<char>, JsonModel)>>,
    pub bulk_values: Option<Seq<Seq<(Seq<char>, JsonModel)>>>,
    pub filters: Option<FiltersModel>,
}

impl View for DatabaseRequest {
    type V = RequestModel;

    open spec fn view(&self) -> RequestModel {
        RequestModel {
            table: self.table@,
            action: self.action,
            values: option_values_model(self.values),
            bulk_values: option_rows_model(self.bulk_values),
            filters: option_filters_model(self.filters),
        }
    }
}

impl Default for DatabaseRequest {
    fn default() -> (r: Self)
        ensures
            r@ == (RequestModel {
                table: Seq::empty(),
                action: DatabaseAction::Retrieve,
                values: None,
                bulk_values: None,
                filters: None,
            }),
    {
        DatabaseRequest {
            table: String::new(),
            action: DatabaseAction::Retrieve,
            values: None,
            bulk_values: None,
            filters: None,
        }
    }
}

/// The working value from which one statement is assembled.
#[derive(Debug, PartialEq, Eq)]
pub struct QueryBuilder {
    pub table: String,
    pub action: DatabaseAction,
    pub filters: Option<Filters>,
    pub bulk_values: Option<Vec<Values>>,
    pub values: Option<Values>,
    pub table_columns: Option<TableColumns>,
    pub bind_params: Vec<JsonValue>,
}

pub struct BuilderModel {
    pub table: Seq<char>,
    pub action: DatabaseAction,
    pub filters: Option<FiltersModel>,
    pub bulk_values: Option<Seq<Seq<(Seq<char>, JsonModel)>>>,
    pub values: Option<Seq<(Seq<char>, JsonModel)>>,
    pub table_columns: Option<Seq<(Seq<char>, Seq<char>)>>,
    pub bind_params: Seq<JsonModel>,
}

impl View for QueryBuilder {
    type V = BuilderModel;

    open spec fn view(&self) -> BuilderModel {
        BuilderModel {
            table: self.table@,
            action: self.action,
            filters: option_filters_model(self.filters),
            bulk_values: option_rows_model(self.bulk_values),
            values: option_values_model(self.values),
            table_columns: option_columns_model(self.table_columns),
            bind_params: models(self.bind_params@),
        }
    }
}

impl Default for QueryBuilder {
    fn default() -> (r: Self)
        ensures
            r@ == (BuilderModel {
                table: Seq::empty(),
                action: DatabaseAction::Retrieve,
                filters: None,
                bulk_values: None,
                values: None,
                table_columns: None,
                bind_params: Seq::empty(),
            }),
    {
        let r = QueryBuilder {
            table: String::new(),
            action: DatabaseAction::Retrieve,
            filters: None,
            bulk_values: None,
            values: None,
            table_columns: None,
            bind_params: Vec::new(),
        };
        assert(models(r.bind_params@) =~= Seq::empty());
        r
    }
}

/// A statement and the values bound to its placeholders, in order.
pub type BuildQuery = (String, Vec<JsonValue>);

pub type BulkValues = Vec<Values>;

} // verus!
