//! The SET list of an UPDATE and the column and value lists of an INSERT,
//! numbered from `$1`, so that a WHERE clause rendered after them starts
//! where they stop.
use vstd::prelude::*;
use vstd::string::*;

use crate::data::ColumnData;
use crate::filter::{CowParamData, consecutive, lemma_where_numbers, where_numbers, where_slots, Param, Params, WherePart};
use crate::text::{decimal, push_decimal, push_quoted, quoted};

verus! {

/// `"name" = $n`.
pub open spec fn assignment_text(name: Seq<char>, n: nat) -> Seq<char> {
    quoted(name) + " = $"@ + decimal(n)
}

/// The assignments of the columns `names`, numbered from `$1`, comma
/// separated.
pub open spec fn update_list(names: Seq<Seq<char>>) -> Seq<char>
    decreases names.len(),
{
    if names.len() == 0 {
        Seq::empty()
    } else if names.len() == 1 {
        assignment_text(names[0], 1)
    } else {
        update_list(names.drop_last()) + ", "@ + assignment_text(names.last(), names.len())
    }
}

/// The quoted column names, comma separated.
pub open spec fn column_list(names: Seq<Seq<char>>) -> Seq<char>
    decreases names.len(),
{
    if names.len() == 0 {
        Seq::empty()
    } else if names.len() == 1 {
        quoted(names[0])
    } else {
        column_list(names.drop_last()) + ", "@ + quoted(names.last())
    }
}

/// The placeholders `$1, ..., $n`, comma separated.
pub open spec fn value_list(n: nat) -> Seq<char>
    decreases n,
{
    if n == 0 {
        Seq::empty()
    } else if n == 1 {
        "$"@ + decimal(1)
    } else {
        value_list((n - 1) as nat) + ", "@ + "$"@ + decimal(n)
    }
}

/// The placeholder numbers of an update list of `k` columns.
pub open spec fn update_numbers(k: nat) -> Seq<nat> {
    consecutive(0, k)
}

/// The names of the parameters.
pub open spec fn param_names(params: Seq<Param>) -> Seq<Seq<char>> {
    params.map_values(|p: Param| p.name@)
}

/// What appending a list to `s` gives: a separating `, ` first when `s` was
/// not empty and the list is not.
pub open spec fn appended(s: Seq<char>, list: Seq<char>) -> Seq<char> {
    if s.len() == 0 || list.len() == 0 {
        s + list
    } else {
        s + ", "@ + list
    }
}

/// A row type that names its columns.
pub trait NamedColumns {
    /// The quoted column names, comma separated: `"id", "name", "email"`.
    fn select_columns() -> &'static str;
}

/// The parameters of an UPDATE, one per column to set.
#[derive(Debug)]
pub struct UpdateParams<'a> {
    params: Vec<Param<'a>>,
}

impl<'a> View for UpdateParams<'a> {
    type V = Seq<Param<'a>>;

    closed spec fn view(&self) -> Seq<Param<'a>> {
        self.params@
    }
}

impl<'a> UpdateParams<'a> {
    /// The update that sets the column of each parameter to its value.
    pub fn new(params: Vec<Param<'a>>) -> (r: Self)
        ensures
            r@ == params@,
    {
        UpdateParams { params }
    }

    /// How many columns are set.
    pub fn len(&self) -> (r: usize)
        ensures
            r == self@.len(),
    {
        self.params.len()
    }

    /// `"col1" = $1, "col2" = $2, ...` over the parameters in order.
    pub fn to_sql(&self) -> (r: String)
        ensures
            r@ == update_list(param_names(self@)),
    {
        let mut s = String::new();
        let mut i: usize = 0;
        while i < self.params.len()
            invariant
                i <= self@.len(),
                s@ == update_list(param_names(self@.subrange(0, i as int))),
            decreases self@.len() - i,
        {
            let ghost prev = param_names(self@.subrange(0, i as int));
            let ghost next = param_names(self@.subrange(0, i + 1));
            assert(next.drop_last() =~= prev);
            if i != 0 {
                s.append(", ");
            }
            push_quoted(&mut s, self.params[i].name.as_str());
            s.append(" = $");
            push_decimal(&mut s, i + 1);
            i = i + 1;
            assert(s@ =~= update_list(next));
        }
        assert(self@.subrange(0, self@.len() as int) =~= self@);
        s
    }

    /// The parameters, in the order of their placeholders.
    pub fn into_params(self) -> (r: Params<'a>)
        ensures
            r@ == self@,
    {
        let mut out = Params::new();
        out.append_vec(self.params);
        out
    }
}

/// The columns and values of a row to insert or update.
#[derive(Debug)]
pub struct RowBuilder<'a> {
    inner: Vec<Param<'a>>,
}

impl<'a> View for RowBuilder<'a> {
    type V = Seq<Param<'a>>;

    closed spec fn view(&self) -> Seq<Param<'a>> {
        self.inner@
    }
}

impl<'a> RowBuilder<'a> {
    pub fn new() -> (r: Self)
        ensures
            r@ == Seq::<Param<'a>>::empty(),
    {
        RowBuilder { inner: Vec::new() }
    }

    /// Adds a column whose value is borrowed. The name is written into SQL
    /// as it is.
    pub fn push(&mut self, name: &str, value: &'a ColumnData<'a>)
        ensures
            final(self)@.len() == old(self)@.len() + 1,
            final(self)@.drop_last() == old(self)@,
            final(self)@.last().name@ == name@,
            final(self)@.last().data == CowParamData::Borrowed(value),
    {
        self.inner.push(Param::new(name, value));
        assert(self@.drop_last() =~= old(self)@);
    }

    /// Appends `"id", "name", ...` to `s`.
    pub fn insert_columns(&self, s: &mut String)
        ensures
            final(s)@ == appended(old(s)@, column_list(param_names(self@))),
    {
        let ghost before = s@;
        let mut i: usize = 0;
        while i < self.inner.len()
            invariant
                i <= self@.len(),
                s@ == appended(before, column_list(param_names(self@.subrange(0, i as int)))),
            decreases self@.len() - i,
        {
            let ghost prev = param_names(self@.subrange(0, i as int));
            let ghost next = param_names(self@.subrange(0, i + 1));
            assert(next.drop_last() =~= prev);
            proof {
                lemma_column_list_len(prev);
            }
            if s.as_str().is_empty() == false {
                s.append(", ");
            }
            push_quoted(s, self.inner[i].name.as_str());
            i = i + 1;
            proof {
                lemma_column_list_len(next);
            }
            assert(s@ =~= appended(before, column_list(next)));
        }
        assert(self@.subrange(0, self@.len() as int) =~= self@);
    }

    /// Appends `$1, $2, ...`, one per column, to `s`.
    pub fn insert_values(&self, s: &mut String)
        ensures
            final(s)@ == appended(old(s)@, value_list(self@.len())),
    {
        let ghost before = s@;
        let mut i: usize = 0;
        while i < self.inner.len()
            invariant
                i <= self@.len(),
                s@ == appended(before, value_list(i as nat)),
            decreases self@.len() - i,
        {
            proof {
                lemma_value_list_len(i as nat);
                lemma_value_list_len((i + 1) as nat);
            }
            if s.as_str().is_empty() == false {
                s.append(", ");
            }
            s.append("$");
            push_decimal(s, i + 1);
            i = i + 1;
            assert(s@ =~= appended(before, value_list(i as nat)));
        }
    }

    /// Appends `"id" = $1, "name" = $2, ...` to `s`.
    pub fn update_columns(&self, s: &mut String)
        ensures
            final(s)@ == appended(old(s)@, update_list(param_names(self@))),
    {
        let ghost before = s@;
        let mut i: usize = 0;
        while i < self.inner.len()
            invariant
                i <= self@.len(),
                s@ == appended(before, update_list(param_names(self@.subrange(0, i as int)))),
            decreases self@.len() - i,
        {
            let ghost prev = param_names(self@.subrange(0, i as int));
            let ghost next = param_names(self@.subrange(0, i + 1));
            assert(next.drop_last() =~= prev);
            proof {
                lemma_update_list_len(prev);
            }
            if s.as_str().is_empty() == false {
                s.append(", ");
            }
            push_quoted(s, self.inner[i].name.as_str());
            s.append(" = $");
            push_decimal(s, i + 1);
            i = i + 1;
            proof {
                lemma_update_list_len(next);
            }
            assert(s@ =~= appended(before, update_list(next)));
        }
        assert(self@.subrange(0, self@.len() as int) =~= self@);
    }

    /// How many parameters the row binds.
    pub fn params_len(&self) -> (r: usize)
        ensures
            r == self@.len(),
    {
        self.inner.len()
    }

    /// The parameters, in the order of their placeholders.
    pub fn into_params(self) -> (r: Params<'a>)
        ensures
            r@ == self@,
    {
        let mut out = Params::new();
        out.append_vec(self.inner);
        out
    }
}

proof fn lemma_column_list_len(names: Seq<Seq<char>>)
    ensures
        (column_list(names).len() == 0) == (names.len() == 0),
    decreases names.len(),
{
    if names.len() > 1 {
        lemma_column_list_len(names.drop_last());
    }
}

proof fn lemma_value_list_len(n: nat)
    ensures
        (value_list(n).len() == 0) == (n == 0),
    decreases n,
{
    if n > 1 {
        lemma_value_list_len((n - 1) as nat);
    }
}

proof fn lemma_update_list_len(names: Seq<Seq<char>>)
    ensures
        (update_list(names).len() == 0) == (names.len() == 0),
    decreases names.len(),
{
    if names.len() > 1 {
        lemma_update_list_len(names.drop_last());
    }
}

/// An UPDATE of `k` columns followed by a WHERE clause whose numbering
/// starts after `k`: the placeholders of the whole statement are `$1` to
/// `$(k + n)`, strictly increasing, so no two share a number.
pub proof fn lemma_update_then_where(k: nat, parts: Seq<WherePart>)
    ensures
        update_numbers(k) + where_numbers(parts, k) == consecutive(0, k + where_slots(parts)),
        forall|i: int, j: int|
            0 <= i < j < k + where_slots(parts) ==> #[trigger] (update_numbers(k) + where_numbers(
                parts,
                k,
            ))[i] < #[trigger] (update_numbers(k) + where_numbers(parts, k))[j],
{
    lemma_where_numbers(parts, k);
    assert(update_numbers(k) + where_numbers(parts, k) =~= consecutive(0, k + where_slots(parts)));
}

} // verus!
