//! The metadata of one table: its columns in declaration order.
use vstd::prelude::*;
use vstd::string::*;

use crate::column::Column;
use crate::text::push_quoted;
use crate::update::column_list;
use crate::util::{ddl_text, info_data_to_sql};

verus! {

/// The names of the columns.
pub open spec fn column_names(cols: Seq<Column>) -> Seq<Seq<char>> {
    cols.map_values(|c: Column| c.name@)
}

/// The columns of a table, in the order rows bind and return them.
#[derive(Debug, Clone)]
pub struct Info {
    data: Vec<Column>,
}

impl View for Info {
    type V = Seq<Column>;

    closed spec fn view(&self) -> Seq<Column> {
        self.data@
    }
}

impl Info {
    pub fn new(data: Vec<Column>) -> (r: Self)
        ensures
            r@ == data@,
    {
        Info { data }
    }

    /// No columns yet, with room for `cap`.
    pub fn with_capacity(cap: usize) -> (r: Self)
        ensures
            r@ == Seq::<Column>::empty(),
    {
        Info { data: Vec::with_capacity(cap) }
    }

    /// Appends a column.
    pub fn push(&mut self, col: Column)
        ensures
            final(self)@ == old(self)@.push(col),
    {
        self.data.push(col);
    }

    /// The columns.
    pub fn data(&self) -> (r: &Vec<Column>)
        ensures
            r@ == self@,
    {
        &self.data
    }

    /// The column names, in order.
    pub fn names(&self) -> (r: Vec<&'static str>)
        ensures
            r@.len() == self@.len(),
            forall|i: int| 0 <= i < r@.len() ==> #[trigger] r@[i] == self@[i].name,
    {
        let mut r: Vec<&'static str> = Vec::new();
        let mut i: usize = 0;
        while i < self.data.len()
            invariant
                i <= self@.len(),
                r@.len() == i,
                forall|j: int| 0 <= j < i ==> #[trigger] r@[j] == self@[j].name,
            decreases self@.len() - i,
        {
            r.push(self.data[i].name);
            i = i + 1;
        }
        r
    }

    /// The quoted column names, comma separated: `"id", "name", "email"`.
    pub fn select_columns(&self) -> (r: String)
        ensures
            r@ == column_list(column_names(self@)),
    {
        let mut s = String::new();
        let mut i: usize = 0;
        while i < self.data.len()
            invariant
                i <= self@.len(),
                s@ == column_list(column_names(self@.subrange(0, i as int))),
            decreases self@.len() - i,
        {
            let ghost prev = column_names(self@.subrange(0, i as int));
            let ghost next = column_names(self@.subrange(0, i + 1));
            assert(next.drop_last() =~= prev);
            if i != 0 {
                s.append(", ");
            }
            push_quoted(&mut s, self.data[i].name);
            i = i + 1;
            assert(s@ =~= column_list(next));
        }
        assert(self@.subrange(0, self@.len() as int) =~= self@);
        s
    }

    /// The column list of an INSERT: the same as that of a SELECT.
    pub fn insert_columns(&self) -> (r: String)
        ensures
            r@ == column_list(column_names(self@)),
    {
        self.select_columns()
    }

    /// The statements that create table `name` with these columns and
    /// their indexes.
    pub fn create_sql(&self, name: &str) -> (r: String)
        ensures
            r@ == ddl_text(name@, self@),
    {
        info_data_to_sql(name, self.data.as_slice())
    }
}

} // verus!
