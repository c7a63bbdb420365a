//! A statement fragment: SQL text with the parameters of its placeholders,
//! which composes with other fragments by splicing text and parameters in
//! the same order.
use vstd::prelude::*;
use vstd::string::*;

use crate::filter::{Param, Params};

verus! {

/// SQL text with its parameters, in the order of their placeholders.
#[derive(Debug)]
pub struct Query<'a> {
    sql: String,
    params: Params<'a>,
}

impl<'a> Query<'a> {
    /// The text of the fragment.
    pub closed spec fn text(&self) -> Seq<char> {
        self.sql@
    }

    /// The parameters of the fragment.
    pub closed spec fn bound(&self) -> Seq<Param<'a>> {
        self.params@
    }

    pub fn new(sql: String, params: Params<'a>) -> (r: Self)
        ensures
            r.text() == sql@,
            r.bound() == params@,
    {
        Query { sql, params }
    }

    /// A fragment of text alone.
    pub fn from_sql_str(sql: &str) -> (r: Self)
        ensures
            r.text() == sql@,
            r.bound() == Seq::<Param<'a>>::empty(),
    {
        Query { sql: String::from_str(sql), params: Params::new() }
    }

    /// Puts `sql` and its `params` in front of this fragment.
    pub fn prepend(&mut self, sql: &str, params: Params<'a>)
        ensures
            final(self).text() == sql@ + old(self).text(),
            final(self).bound() == params@ + old(self).bound(),
    {
        let mut front = String::from_str(sql);
        front.append(self.sql.as_str());
        self.sql = front;
        self.params.prepend(params);
    }

    /// Appends the text and the parameters of `other`.
    pub fn append(&mut self, other: Query<'a>)
        ensures
            final(self).text() == old(self).text() + other.text(),
            final(self).bound() == old(self).bound() + other.bound(),
    {
        self.sql.append(other.sql.as_str());
        self.params.append(other.params);
    }

    /// Appends `sql` and its `params`.
    pub fn append_raw(&mut self, sql: &str, params: Params<'a>)
        ensures
            final(self).text() == old(self).text() + sql@,
            final(self).bound() == old(self).bound() + params@,
    {
        self.sql.append(sql);
        self.params.append(params);
    }

    /// The text.
    pub fn sql(&self) -> (r: &str)
        ensures
            r@ == self.text(),
    {
        self.sql.as_str()
    }

    /// The parameters.
    pub fn params(&self) -> (r: &Params<'a>)
        ensures
            r@ == self.bound(),
    {
        &self.params
    }

    /// Whether the fragment has neither text nor parameters.
    pub fn is_empty(&self) -> (r: bool)
        ensures
            r == (self.text().len() == 0 && self.bound().len() == 0),
    {
        self.sql.as_str().is_empty() && self.params.is_empty()
    }

    /// The text and the parameters.
    pub fn into_parts(self) -> (r: (String, Params<'a>))
        ensures
            r.0@ == self.text(),
            r.1@ == self.bound(),
    {
        (self.sql, self.params)
    }
}

} // verus!
