//! Whole statements against one table, put together from the table name,
//! a column list and a rendered filter.
use vstd::prelude::*;
use vstd::string::*;

use crate::filter::{filter_text, where_slots, where_text, Filter, Where, WhereFilter};
use crate::query::Query;
use crate::update::{param_names, update_list, UpdateParams};
use crate::text::quoted;

verus! {

/// A row type that describes the table it is stored in.
pub trait TableTemplate: Sized {
    /// The columns of the table.
    fn table_info() -> crate::info::Info;
}

/// A table, by name.
#[derive(Debug, Clone)]
pub struct Table {
    name: String,
}

impl View for Table {
    type V = Seq<char>;

    closed spec fn view(&self) -> Seq<char> {
        self.name@
    }
}

/// The text of a filter.
pub open spec fn text_of_filter(f: Filter) -> Seq<char> {
    filter_text(f.whr@, f.order_by@, f.limit, f.offset, f.params@.len())
}

/// Whether a filter can be rendered: its placeholder numbers fit in a
/// `usize`, and a bound offset has its parameter.
pub open spec fn renderable(f: Filter) -> bool {
    &&& where_slots(f.whr@) <= usize::MAX
    &&& f.offset is Param ==> f.params@.len() >= 1
}

impl Table {
    pub fn new(name: &str) -> (r: Self)
        ensures
            r@ == name@,
    {
        Table { name: String::from_str(name) }
    }

    /// The name of the table.
    pub fn name(&self) -> (r: &str)
        ensures
            r@ == self@,
    {
        self.name.as_str()
    }

    /// `SELECT columns FROM "table"` followed by the filter.
    pub fn select_sql(&self, columns: &str, filter: &Filter) -> (r: String)
        requires
            renderable(*filter),
        ensures
            r@ == "SELECT "@ + columns@ + " FROM "@ + quoted(self@) + text_of_filter(*filter),
    {
        let mut s = String::from_str("SELECT ");
        s.append(columns);
        s.append(" FROM ");
        crate::text::push_quoted(&mut s, self.name.as_str());
        filter.push_sql(&mut s);
        assert(s@ =~= "SELECT "@ + columns@ + " FROM "@ + quoted(self@) + text_of_filter(*filter));
        s
    }

    /// `SELECT COUNT("column") FROM "table"` followed by the filter.
    pub fn count_sql(&self, column: &str, filter: &Filter) -> (r: String)
        requires
            renderable(*filter),
        ensures
            r@ == "SELECT COUNT("@ + quoted(column@) + ") FROM "@ + quoted(self@) + text_of_filter(
                *filter,
            ),
    {
        let mut s = String::from_str("SELECT COUNT(");
        crate::text::push_quoted(&mut s, column);
        s.append(") FROM ");
        crate::text::push_quoted(&mut s, self.name.as_str());
        filter.push_sql(&mut s);
        assert(s@ =~= "SELECT COUNT("@ + quoted(column@) + ") FROM "@ + quoted(self@)
            + text_of_filter(*filter));
        s
    }

    /// `INSERT INTO "table" (columns) VALUES (values)`.
    pub fn insert_sql(&self, columns: &str, values: &str) -> (r: String)
        ensures
            r@ == "INSERT INTO "@ + quoted(self@) + " ("@ + columns@ + ") VALUES ("@ + values@
                + ")"@,
    {
        let mut s = String::from_str("INSERT INTO ");
        crate::text::push_quoted(&mut s, self.name.as_str());
        s.append(" (");
        s.append(columns);
        s.append(") VALUES (");
        s.append(values);
        s.append(")");
        assert(s@ =~= "INSERT INTO "@ + quoted(self@) + " ("@ + columns@ + ") VALUES ("@ + values@
            + ")"@);
        s
    }

    /// `UPDATE "table" SET assignments` followed by the WHERE clause, whose
    /// placeholders are numbered after the `set_params` of the assignments.
    pub fn update_sql(&self, assignments: &str, set_params: usize, whr: &Where) -> (r: String)
        requires
            set_params + where_slots(whr@) <= usize::MAX,
        ensures
            r@ == "UPDATE "@ + quoted(self@) + " SET "@ + assignments@ + where_text(
                whr@,
                set_params as nat,
            ),
    {
        let mut s = String::from_str("UPDATE ");
        crate::text::push_quoted(&mut s, self.name.as_str());
        s.append(" SET ");
        s.append(assignments);
        whr.push_sql(&mut s, set_params);
        assert(s@ =~= "UPDATE "@ + quoted(self@) + " SET "@ + assignments@ + where_text(
            whr@,
            set_params as nat,
        ));
        s
    }

    /// `DELETE FROM "table"` followed by the WHERE clause.
    pub fn delete_sql(&self, filter: &WhereFilter) -> (r: String)
        requires
            where_slots(filter.whr@) <= usize::MAX,
        ensures
            r@ == "DELETE FROM "@ + quoted(self@) + where_text(filter.whr@, 0),
    {
        let mut s = String::from_str("DELETE FROM ");
        crate::text::push_quoted(&mut s, self.name.as_str());
        filter.whr.push_sql(&mut s, 0);
        assert(s@ =~= "DELETE FROM "@ + quoted(self@) + where_text(filter.whr@, 0));
        s
    }

    /// The SELECT statement with the filter's parameters, or `None` when
    /// the filter cannot be rendered.
    pub fn select<'a>(&self, columns: &str, filter: Filter<'a>) -> (r: Option<Query<'a>>)
        ensures
            r is Some <==> renderable(filter),
            r matches Some(q) ==> q.text() == "SELECT "@ + columns@ + " FROM "@ + quoted(self@)
                + text_of_filter(filter) && q.bound() == filter.params@,
    {
        if !filter.can_render() {
            return None;
        }
        let sql = self.select_sql(columns, &filter);
        Some(Query::new(sql, filter.params))
    }

    /// The UPDATE statement with its parameters: those of the assignments,
    /// numbered from `$1`, then those of the filter; `None` when the
    /// placeholder numbers do not fit in a `usize`.
    pub fn update<'a>(&self, update: UpdateParams<'a>, filter: WhereFilter<'a>) -> (r: Option<
        Query<'a>,
    >)
        ensures
            r is Some <==> update@.len() + where_slots(filter.whr@) <= usize::MAX,
            r matches Some(q) ==> q.text() == "UPDATE "@ + quoted(self@) + " SET "@ + update_list(
                param_names(update@),
            ) + where_text(filter.whr@, update@.len()) && q.bound() == update@ + filter.params@,
    {
        let k = update.len();
        match filter.whr.slots() {
            Some(n) => {
                if n > usize::MAX - k {
                    return None;
                }
            },
            None => {
                return None;
            },
        }
        let set = update.to_sql();
        let sql = self.update_sql(set.as_str(), k, &filter.whr);
        let mut params = update.into_params();
        params.append(filter.params);
        Some(Query::new(sql, params))
    }

    /// The DELETE statement with the filter's parameters, or `None` when
    /// the placeholder numbers do not fit in a `usize`.
    pub fn delete<'a>(&self, filter: WhereFilter<'a>) -> (r: Option<Query<'a>>)
        ensures
            r is Some <==> where_slots(filter.whr@) <= usize::MAX,
            r matches Some(q) ==> q.text() == "DELETE FROM "@ + quoted(self@) + where_text(
                filter.whr@,
                0,
            ) && q.bound() == filter.params@,
    {
        if filter.whr.slots().is_none() {
            return None;
        }
        let sql = self.delete_sql(&filter);
        Some(Query::new(sql, filter.params))
    }
}

} // verus!
