//! Filters: a WHERE expression, an ORDER BY list, LIMIT and OFFSET, and the
//! flat list of bound parameters, rendered to SQL text with `$n`
//! placeholders numbered in one pass from left to right.
use vstd::prelude::*;
use vstd::string::*;

use crate::column::ColumnType;
use crate::data::{ColumnData, Text};
use crate::text::{decimal, push_decimal, push_quoted, quoted};

verus! {

/// A comparison of a column against bound parameters.
#[derive(Debug, Clone, Copy, PartialEq, Eq, Structural)]
pub enum Operator {
    Eq,
    Ne,
    Lt,
    Lte,
    Gt,
    Gte,
    Like,
    In { length: usize },
    // takes no parameter
    IsNull,
    // takes no parameter
    IsNotNull,
}

/// The SQL text of an operator.
pub open spec fn operator_text(op: Operator) -> Seq<char> {
    match op {
        Operator::Eq => "="@,
        Operator::Ne => "!="@,
        Operator::Lt => "<"@,
        Operator::Lte => "<="@,
        Operator::Gt => ">"@,
        Operator::Gte => ">="@,
        Operator::Like => "LIKE"@,
        Operator::In { .. } => "IN"@,
        Operator::IsNull => "IS NULL"@,
        Operator::IsNotNull => "IS NOT NULL"@,
    }
}

impl Operator {
    /// How many parameter slots the operator takes.
    pub open spec fn slots(self) -> nat {
        match self {
            Operator::IsNull | Operator::IsNotNull => 0,
            Operator::In { length } => length as nat,
            _ => 1,
        }
    }

    /// Whether the operator compares a column with exactly one value.
    pub open spec fn is_comparison(self) -> bool {
        !(self is In || self is IsNull || self is IsNotNull)
    }

    /// The SQL text of the operator.
    pub fn as_str(&self) -> (r: &'static str)
        ensures
            r@ == operator_text(*self),
    {
        match self {
            Operator::Eq => "=",
            Operator::Ne => "!=",
            Operator::Lt => "<",
            Operator::Lte => "<=",
            Operator::Gt => ">",
            Operator::Gte => ">=",
            Operator::Like => "LIKE",
            Operator::In { .. } => "IN",
            Operator::IsNull => "IS NULL",
            Operator::IsNotNull => "IS NOT NULL",
        }
    }
}

/// One operator applied to one column.
#[derive(Debug, Clone)]
pub struct WhereOperation {
    pub kind: Operator,
    pub column: String,
}

/// A part of a WHERE expression: an operation or a connective between two.
#[derive(Debug, Clone)]
pub enum WherePart {
    Operation(WhereOperation),
    And,
    Or,
}

/// The right-hand side of a comparison: a parameter or another column.
#[derive(Debug, Clone)]
pub enum WhereIdent {
    Param,
    Name(String),
}

/// A WHERE expression: operations and connectives in the order written.
#[derive(Debug, Clone)]
pub struct Where {
    inner: Vec<WherePart>,
}

impl View for Where {
    type V = Seq<WherePart>;

    closed spec fn view(&self) -> Seq<WherePart> {
        self.inner@
    }
}

/// How many parameter slots a part takes.
pub open spec fn part_slots(p: WherePart) -> nat {
    match p {
        WherePart::Operation(op) => op.kind.slots(),
        _ => 0,
    }
}

/// How many parameter slots the parts take together.
pub open spec fn where_slots(parts: Seq<WherePart>) -> nat
    decreases parts.len(),
{
    if parts.len() == 0 {
        0
    } else {
        where_slots(parts.drop_last()) + part_slots(parts.last())
    }
}

/// The placeholders `$(start + 1), ..., $(start + len)`, comma separated.
pub open spec fn in_list(start: nat, len: nat) -> Seq<char>
    decreases len,
{
    if len == 0 {
        Seq::empty()
    } else if len == 1 {
        "$"@ + decimal(start + 1)
    } else {
        in_list(start, (len - 1) as nat) + ", "@ + "$"@ + decimal(start + len)
    }
}

/// The text of one operation whose parameters come after the first `n`.
pub open spec fn operation_text(op: WhereOperation, n: nat) -> Seq<char> {
    match op.kind {
        Operator::IsNull | Operator::IsNotNull => quoted(op.column@) + " "@ + operator_text(
            op.kind,
        ),
        Operator::In { length } => quoted(op.column@) + " IN ("@ + in_list(n, length as nat)
            + ")"@,
        _ => quoted(op.column@) + " "@ + operator_text(op.kind) + " $"@ + decimal(n + 1),
    }
}

/// The text of one part whose parameters come after the first `n`.
pub open spec fn part_text(p: WherePart, n: nat) -> Seq<char> {
    match p {
        WherePart::Operation(op) => operation_text(op, n),
        WherePart::And => " AND "@,
        WherePart::Or => " OR "@,
    }
}

/// The text of the parts, numbering parameters from `start + 1`.
pub open spec fn parts_text(parts: Seq<WherePart>, start: nat) -> Seq<char>
    decreases parts.len(),
{
    if parts.len() == 0 {
        Seq::empty()
    } else {
        parts_text(parts.drop_last(), start) + part_text(
            parts.last(),
            start + where_slots(parts.drop_last()),
        )
    }
}

/// The WHERE clause, with its leading space, or nothing for no parts.
pub open spec fn where_text(parts: Seq<WherePart>, start: nat) -> Seq<char> {
    if parts.len() == 0 {
        Seq::empty()
    } else {
        " WHERE "@ + parts_text(parts, start)
    }
}

/// Appending a part adds its slots.
pub proof fn lemma_where_slots_push(parts: Seq<WherePart>, p: WherePart)
    ensures
        where_slots(parts.push(p)) == where_slots(parts) + part_slots(p),
{
    assert(parts.push(p).drop_last() =~= parts);
}

/// A prefix takes no more slots than the whole.
pub proof fn lemma_where_slots_prefix(parts: Seq<WherePart>, i: int)
    requires
        0 <= i <= parts.len(),
    ensures
        where_slots(parts.subrange(0, i)) <= where_slots(parts),
    decreases parts.len(),
{
    if i < parts.len() {
        assert(parts.drop_last() =~= parts.subrange(0, parts.len() - 1));
        assert(parts.subrange(0, i) =~= parts.drop_last().subrange(0, i));
        lemma_where_slots_prefix(parts.drop_last(), i);
    } else {
        assert(parts.subrange(0, i) =~= parts);
    }
}

/// The placeholder numbers of one part whose parameters come after the
/// first `n`, in the order they appear in its text.
pub open spec fn part_numbers(p: WherePart, n: nat) -> Seq<nat> {
    match p {
        WherePart::Operation(op) => Seq::new(op.kind.slots(), |i: int| (n + i + 1) as nat),
        _ => Seq::empty(),
    }
}

/// The placeholder numbers of the parts, in the order they appear in the
/// text, when numbering starts after `start`.
pub open spec fn where_numbers(parts: Seq<WherePart>, start: nat) -> Seq<nat>
    decreases parts.len(),
{
    if parts.len() == 0 {
        Seq::empty()
    } else {
        where_numbers(parts.drop_last(), start) + part_numbers(
            parts.last(),
            start + where_slots(parts.drop_last()),
        )
    }
}

/// The numbers `start + 1, ..., start + len`.
pub open spec fn consecutive(start: nat, len: nat) -> Seq<nat> {
    Seq::new(len, |i: int| (start + i + 1) as nat)
}

/// The placeholders of a WHERE expression are numbered consecutively from
/// `start + 1`, one for each slot its operations take.
pub proof fn lemma_where_numbers(parts: Seq<WherePart>, start: nat)
    ensures
        where_numbers(parts, start) == consecutive(start, where_slots(parts)),
    decreases parts.len(),
{
    if parts.len() > 0 {
        lemma_where_numbers(parts.drop_last(), start);
        assert(where_numbers(parts, start) =~= consecutive(start, where_slots(parts)));
    } else {
        assert(where_numbers(parts, start) =~= consecutive(start, where_slots(parts)));
    }
}

/// An operation with a comparison operator other than `IN`, `IS NULL` and
/// `IS NOT NULL` adds exactly one placeholder, the next number in turn.
pub proof fn lemma_comparison_adds_one_placeholder(
    parts: Seq<WherePart>,
    op: WhereOperation,
    start: nat,
)
    requires
        op.kind.is_comparison(),
    ensures
        where_slots(parts.push(WherePart::Operation(op))) == where_slots(parts) + 1,
        where_numbers(parts.push(WherePart::Operation(op)), start) == where_numbers(parts, start).push(
            start + where_slots(parts) + 1,
        ),
        parts_text(parts.push(WherePart::Operation(op)), start) == parts_text(parts, start)
            + quoted(op.column@) + " "@ + operator_text(op.kind) + " $"@ + decimal(
            start + where_slots(parts) + 1,
        ),
{
    let next = parts.push(WherePart::Operation(op));
    assert(next.drop_last() =~= parts);
    assert(where_numbers(next, start) =~= where_numbers(parts, start).push(
        start + where_slots(parts) + 1,
    ));
}

/// `IN` over `n` values adds exactly `n` placeholders, numbered
/// consecutively after those before it, in one comma separated list.
pub proof fn lemma_in_adds_n_placeholders(parts: Seq<WherePart>, op: WhereOperation, start: nat)
    requires
        op.kind is In,
    ensures
        where_slots(parts.push(WherePart::Operation(op))) == where_slots(parts) + op.kind->length,
        where_numbers(parts.push(WherePart::Operation(op)), start) == where_numbers(parts, start)
            + consecutive(start + where_slots(parts), op.kind->length as nat),
        parts_text(parts.push(WherePart::Operation(op)), start) == parts_text(parts, start)
            + quoted(op.column@) + " IN ("@ + in_list(
            start + where_slots(parts),
            op.kind->length as nat,
        ) + ")"@,
        in_list(start + where_slots(parts), op.kind->length as nat) == crate::text::join(
            placeholders(start + where_slots(parts), op.kind->length as nat),
            ", "@,
        ),
{
    let next = parts.push(WherePart::Operation(op));
    assert(next.drop_last() =~= parts);
    assert(where_numbers(next, start) =~= where_numbers(parts, start) + consecutive(
        start + where_slots(parts),
        op.kind->length as nat,
    ));
    lemma_in_list(start + where_slots(parts), op.kind->length as nat);
}

/// The placeholders `$(start + 1), ..., $(start + len)`.
pub open spec fn placeholders(start: nat, len: nat) -> Seq<Seq<char>> {
    Seq::new(len, |i: int| "$"@ + decimal((start + i + 1) as nat))
}

/// An `IN` list is the consecutive placeholders joined by commas.
pub proof fn lemma_in_list(start: nat, len: nat)
    ensures
        in_list(start, len) == crate::text::join(placeholders(start, len), ", "@),
    decreases len,
{
    if len > 1 {
        lemma_in_list(start, (len - 1) as nat);
        assert(placeholders(start, len).drop_last() =~= placeholders(start, (len - 1) as nat));
    } else if len == 1 {
        assert(placeholders(start, len)[0] == "$"@ + decimal(start + 1));
    }
}

/// A null check, as a null `Eq` or `Ne` comparison becomes, adds text but
/// no placeholder.
pub proof fn lemma_null_check_adds_no_placeholder(
    parts: Seq<WherePart>,
    op: WhereOperation,
    start: nat,
)
    requires
        op.kind is IsNull || op.kind is IsNotNull,
    ensures
        where_slots(parts.push(WherePart::Operation(op))) == where_slots(parts),
        where_numbers(parts.push(WherePart::Operation(op)), start) == where_numbers(parts, start),
        parts_text(parts.push(WherePart::Operation(op)), start) == parts_text(parts, start)
            + quoted(op.column@) + " "@ + operator_text(op.kind),
{
    let next = parts.push(WherePart::Operation(op));
    assert(next.drop_last() =~= parts);
    assert(where_numbers(next, start) =~= where_numbers(parts, start));
}

/// A null value compared by `Eq` gives `"col" IS NULL` and by `Ne` gives
/// `"col" IS NOT NULL`, and neither binds a parameter.
pub proof fn lemma_null_comparison(kind: Operator, param: Param)
    requires
        param.value().is_null_spec(),
        kind is Eq || kind is Ne,
    ensures
        !comparison_binds(kind, param),
        comparison_part(kind, param) matches WherePart::Operation(op) && op.column == param.name
            && op.kind == if kind is Eq {
            Operator::IsNull
        } else {
            Operator::IsNotNull
        },
        kind is Eq ==> operation_text(
            WhereOperation { kind: Operator::IsNull, column: param.name },
            0,
        ) == quoted(param.name@) + " "@ + "IS NULL"@,
        kind is Ne ==> operation_text(
            WhereOperation { kind: Operator::IsNotNull, column: param.name },
            0,
        ) == quoted(param.name@) + " "@ + "IS NOT NULL"@,
{
}

fn push_in_list(s: &mut String, start: usize, len: usize)
    requires
        start + len <= usize::MAX,
    ensures
        final(s)@ == old(s)@ + in_list(start as nat, len as nat),
{
    let ghost before = s@;
    let mut i: usize = 0;
    while i < len
        invariant
            i <= len,
            start + len <= usize::MAX,
            s@ == before + in_list(start as nat, i as nat),
        decreases len - i,
    {
        if i != 0 {
            s.append(", ");
        }
        s.append("$");
        push_decimal(s, start + i + 1);
        i = i + 1;
        assert(s@ =~= before + in_list(start as nat, i as nat));
    }
}

fn push_operation(s: &mut String, op: &WhereOperation, n: usize)
    requires
        n + op.kind.slots() <= usize::MAX,
    ensures
        final(s)@ == old(s)@ + operation_text(*op, n as nat),
{
    let ghost before = s@;
    match op.kind {
        Operator::IsNull | Operator::IsNotNull => {
            push_quoted(s, op.column.as_str());
            s.append(" ");
            s.append(op.kind.as_str());
        },
        Operator::In { length } => {
            push_quoted(s, op.column.as_str());
            s.append(" IN (");
            push_in_list(s, n, length);
            s.append(")");
        },
        _ => {
            push_quoted(s, op.column.as_str());
            s.append(" ");
            s.append(op.kind.as_str());
            s.append(" $");
            push_decimal(s, n + 1);
        },
    }
    assert(s@ =~= before + operation_text(*op, n as nat));
}

impl Where {
    pub fn new() -> (r: Self)
        ensures
            r@ == Seq::<WherePart>::empty(),
    {
        Where { inner: Vec::new() }
    }

    /// Appends a part.
    pub fn push(&mut self, part: WherePart)
        ensures
            final(self)@ == old(self)@.push(part),
    {
        self.inner.push(part);
    }

    /// Whether the expression has no parts.
    pub fn is_empty(&self) -> (r: bool)
        ensures
            r == (self@.len() == 0),
    {
        self.inner.len() == 0
    }

    /// How many parameter slots the operations take together, or `None`
    /// when that number does not fit in a `usize`.
    pub fn slots(&self) -> (r: Option<usize>)
        ensures
            r matches Some(n) ==> n == where_slots(self@),
            r is None ==> where_slots(self@) > usize::MAX,
    {
        let mut total: usize = 0;
        let mut i: usize = 0;
        while i < self.inner.len()
            invariant
                i <= self@.len(),
                total == where_slots(self@.subrange(0, i as int)),
            decreases self@.len() - i,
        {
            let ghost next = self@.subrange(0, i + 1);
            assert(next.drop_last() =~= self@.subrange(0, i as int));
            let add: usize = match &self.inner[i] {
                WherePart::Operation(op) => match op.kind {
                    Operator::IsNull | Operator::IsNotNull => 0,
                    Operator::In { length } => length,
                    _ => 1,
                },
                _ => 0,
            };
            if add > usize::MAX - total {
                proof {
                    lemma_where_slots_prefix(self@, i + 1);
                }
                return None;
            }
            total = total + add;
            i = i + 1;
        }
        assert(self@.subrange(0, self@.len() as int) =~= self@);
        Some(total)
    }

    /// Appends the WHERE clause to `s`, numbering parameters from
    /// `param_start + 1`: the parameters of an earlier fragment of the same
    /// statement take the first `param_start` slots.
    pub fn push_sql(&self, s: &mut String, param_start: usize)
        requires
            param_start + where_slots(self@) <= usize::MAX,
        ensures
            final(s)@ == old(s)@ + where_text(self@, param_start as nat),
    {
        if self.inner.len() == 0 {
            assert(old(s)@ + where_text(self@, param_start as nat) =~= old(s)@);
            return ;
        }
        let ghost before = s@;
        s.append(" WHERE ");
        let mut param_num: usize = param_start;
        let mut i: usize = 0;
        while i < self.inner.len()
            invariant
                i <= self@.len(),
                param_start + where_slots(self@) <= usize::MAX,
                param_num == param_start + where_slots(self@.subrange(0, i as int)),
                s@ == before + " WHERE "@ + parts_text(self@.subrange(0, i as int), param_start as nat),
            decreases self@.len() - i,
        {
            let ghost prefix = self@.subrange(0, i as int);
            let ghost next = self@.subrange(0, i + 1);
            assert(next.drop_last() =~= prefix);
            assert(next.last() == self@[i as int]);
            proof {
                lemma_where_slots_prefix(self@, i + 1);
            }
            match &self.inner[i] {
                WherePart::And => {
                    s.append(" AND ");
                },
                WherePart::Or => {
                    s.append(" OR ");
                },
                WherePart::Operation(op) => {
                    push_operation(s, op, param_num);
                    param_num = param_num + match op.kind {
                        Operator::IsNull | Operator::IsNotNull => 0,
                        Operator::In { length } => length,
                        _ => 1,
                    };
                },
            }
            i = i + 1;
            assert(s@ =~= before + " WHERE "@ + parts_text(next, param_start as nat));
        }
        assert(self@.subrange(0, self@.len() as int) =~= self@);
    }

    /// The WHERE clause with parameters numbered from `param_start + 1`.
    pub fn to_sql(&self, param_start: usize) -> (r: String)
        requires
            param_start + where_slots(self@) <= usize::MAX,
        ensures
            r@ == where_text(self@, param_start as nat),
    {
        let mut s = String::new();
        self.push_sql(&mut s, param_start);
        assert(s@ =~= where_text(self@, param_start as nat));
        s
    }

    /// The WHERE clause with parameters numbered from `$1`.
    pub fn to_string(&self) -> (r: String)
        requires
            where_slots(self@) <= usize::MAX,
        ensures
            r@ == where_text(self@, 0),
    {
        self.to_sql(0)
    }
}

/// One column of an ORDER BY list with its direction.
#[derive(Debug, Clone)]
pub enum OrderByPart {
    Asc(String),
    Desc(String),
}

/// An ORDER BY list.
#[derive(Debug, Clone)]
pub struct OrderBy {
    inner: Vec<OrderByPart>,
}

impl View for OrderBy {
    type V = Seq<OrderByPart>;

    closed spec fn view(&self) -> Seq<OrderByPart> {
        self.inner@
    }
}

/// The text of one column of an ORDER BY list.
pub open spec fn order_part_text(p: OrderByPart) -> Seq<char> {
    match p {
        OrderByPart::Asc(c) => quoted(c@) + " ASC"@,
        OrderByPart::Desc(c) => quoted(c@) + " DESC"@,
    }
}

/// The columns of an ORDER BY list, comma separated.
pub open spec fn order_list_text(parts: Seq<OrderByPart>) -> Seq<char>
    decreases parts.len(),
{
    if parts.len() == 0 {
        Seq::empty()
    } else if parts.len() == 1 {
        order_part_text(parts[0])
    } else {
        order_list_text(parts.drop_last()) + ", "@ + order_part_text(parts.last())
    }
}

/// The ORDER BY clause, with its leading space, or nothing for no columns.
pub open spec fn order_by_text(parts: Seq<OrderByPart>) -> Seq<char> {
    if parts.len() == 0 {
        Seq::empty()
    } else {
        " ORDER BY "@ + order_list_text(parts)
    }
}

impl OrderBy {
    pub fn new() -> (r: Self)
        ensures
            r@ == Seq::<OrderByPart>::empty(),
    {
        OrderBy { inner: Vec::new() }
    }

    /// Appends a column in ascending order.
    pub fn push_asc(&mut self, column: &str)
        ensures
            final(self)@.len() == old(self)@.len() + 1,
            final(self)@.drop_last() == old(self)@,
            final(self)@.last() matches OrderByPart::Asc(c) && c@ == column@,
    {
        self.inner.push(OrderByPart::Asc(String::from_str(column)));
        assert(self@.drop_last() =~= old(self)@);
    }

    /// Appends a column in descending order.
    pub fn push_desc(&mut self, column: &str)
        ensures
            final(self)@.len() == old(self)@.len() + 1,
            final(self)@.drop_last() == old(self)@,
            final(self)@.last() matches OrderByPart::Desc(c) && c@ == column@,
    {
        self.inner.push(OrderByPart::Desc(String::from_str(column)));
        assert(self@.drop_last() =~= old(self)@);
    }

    /// Whether the list has no columns.
    pub fn is_empty(&self) -> (r: bool)
        ensures
            r == (self@.len() == 0),
    {
        self.inner.len() == 0
    }

    /// Appends the ORDER BY clause to `s`.
    pub fn push_sql(&self, s: &mut String)
        ensures
            final(s)@ == old(s)@ + order_by_text(self@),
    {
        if self.inner.len() == 0 {
            assert(old(s)@ + order_by_text(self@) =~= old(s)@);
            return ;
        }
        let ghost before = s@;
        s.append(" ORDER BY ");
        let mut i: usize = 0;
        while i < self.inner.len()
            invariant
                i <= self@.len(),
                s@ == before + " ORDER BY "@ + order_list_text(self@.subrange(0, i as int)),
            decreases self@.len() - i,
        {
            let ghost next = self@.subrange(0, i + 1);
            assert(next.drop_last() =~= self@.subrange(0, i as int));
            if i != 0 {
                s.append(", ");
            }
            match &self.inner[i] {
                OrderByPart::Asc(c) => {
                    push_quoted(s, c.as_str());
                    s.append(" ASC");
                },
                OrderByPart::Desc(c) => {
                    push_quoted(s, c.as_str());
                    s.append(" DESC");
                },
            }
            i = i + 1;
            assert(s@ =~= before + " ORDER BY "@ + order_list_text(next));
        }
        assert(self@.subrange(0, self@.len() as int) =~= self@);
    }
}

/// How many rows to return at most.
#[derive(Debug, Clone, Copy, PartialEq, Eq, Structural)]
pub enum Limit {
    /// A number written into the text.
    Fixed(usize),
    /// A number bound as a parameter.
    Param,
    /// No limit.
    All,
}

impl Limit {
    pub fn new() -> (r: Self)
        ensures
            r == Limit::All,
    {
        Limit::All
    }

    pub fn set_param(&mut self)
        ensures
            *final(self) == Limit::Param,
    {
        *self = Limit::Param;
    }

    pub fn set_fixed(&mut self, value: usize)
        ensures
            *final(self) == Limit::Fixed(value),
    {
        *self = Limit::Fixed(value);
    }
}

/// How many rows to skip.
#[derive(Debug, Clone, Copy, PartialEq, Eq, Structural)]
pub enum Offset {
    /// None are skipped.
    Zero,
    /// A number written into the text.
    Fixed(usize),
    /// A number bound as a parameter.
    Param,
}

impl Offset {
    pub fn new() -> (r: Self)
        ensures
            r == Offset::Zero,
    {
        Offset::Zero
    }

    pub fn set_param(&mut self)
        ensures
            *final(self) == Offset::Param,
    {
        *self = Offset::Param;
    }

    pub fn set_fixed(&mut self, value: usize)
        ensures
            *final(self) == Offset::Fixed(value),
    {
        *self = Offset::Fixed(value);
    }
}

/// The LIMIT clause. A bound limit takes the last slot of the `count`
/// parameters that precede a bound offset.
pub open spec fn limit_text(limit: Limit, count: nat) -> Seq<char> {
    match limit {
        Limit::Fixed(v) => " LIMIT "@ + decimal(v as nat),
        Limit::Param => " LIMIT $"@ + decimal(count),
        Limit::All => Seq::empty(),
    }
}

/// The OFFSET clause. A bound offset takes the last of `total` slots.
pub open spec fn offset_text(offset: Offset, total: nat) -> Seq<char> {
    match offset {
        Offset::Zero => Seq::empty(),
        Offset::Fixed(v) => " OFFSET "@ + decimal(v as nat),
        Offset::Param => " OFFSET $"@ + decimal(total),
    }
}

/// A value bound to a placeholder, with the name of the column it is for.
#[derive(Debug)]
pub struct Param<'a> {
    pub name: String,
    pub data: CowParamData<'a>,
}

/// The value of a parameter: borrowed from the caller for the lifetime of
/// the query, or owned by the parameter.
#[derive(Debug)]
pub enum CowParamData<'a> {
    Borrowed(&'a ColumnData<'a>),
    Owned(ColumnData<'a>),
}

impl<'a> CowParamData<'a> {
    /// The value, wherever it is held.
    pub open spec fn value(&self) -> ColumnData<'a> {
        match self {
            CowParamData::Borrowed(d) => **d,
            CowParamData::Owned(d) => *d,
        }
    }

    /// The value, wherever it is held.
    pub fn as_ref(&self) -> (r: &ColumnData<'a>)
        ensures
            *r == self.value(),
    {
        match self {
            CowParamData::Borrowed(d) => *d,
            CowParamData::Owned(d) => d,
        }
    }
}

impl<'a> Param<'a> {
    /// The bound value.
    pub open spec fn value(&self) -> ColumnData<'a> {
        self.data.value()
    }

    /// A parameter for column `name` that borrows `data`.
    pub fn new(name: &str, data: &'a ColumnData<'a>) -> (r: Self)
        ensures
            r.name@ == name@,
            r.data == CowParamData::Borrowed(data),
    {
        Param { name: String::from_str(name), data: CowParamData::Borrowed(data) }
    }

    /// A parameter for column `name` that owns `data`, for values made
    /// while the query is built.
    pub fn new_owned(name: &str, data: ColumnData<'a>) -> (r: Self)
        ensures
            r.name@ == name@,
            r.data == CowParamData::Owned(data),
    {
        Param { name: String::from_str(name), data: CowParamData::Owned(data) }
    }

    /// A parameter for column `name` that owns the column value of `value`.
    pub fn from_value<T: ColumnType>(name: &str, value: &T) -> (r: Self)
        ensures
            r.name@ == name@,
            r.data == CowParamData::Owned(value.data_spec()),
    {
        Param { name: String::from_str(name), data: CowParamData::Owned(value.to_data()) }
    }

    /// The bound value.
    pub fn data(&self) -> (r: &ColumnData<'a>)
        ensures
            *r == self.value(),
    {
        self.data.as_ref()
    }

    /// Whether the bound value is null.
    pub fn is_null(&self) -> (r: bool)
        ensures
            r == self.value().is_null_spec(),
    {
        self.data.as_ref().is_null()
    }
}

/// The parameters of a statement, in the order of their placeholders.
#[derive(Debug)]
pub struct Params<'a> {
    inner: Vec<Param<'a>>,
}

impl<'a> View for Params<'a> {
    type V = Seq<Param<'a>>;

    closed spec fn view(&self) -> Seq<Param<'a>> {
        self.inner@
    }
}

impl<'a> Params<'a> {
    pub fn new() -> (r: Self)
        ensures
            r@ == Seq::<Param<'a>>::empty(),
    {
        Params { inner: Vec::new() }
    }

    /// Appends a parameter.
    pub fn push(&mut self, param: Param<'a>)
        ensures
            final(self)@ == old(self)@.push(param),
    {
        self.inner.push(param);
    }

    pub fn len(&self) -> (r: usize)
        ensures
            r == self@.len(),
    {
        self.inner.len()
    }

    pub fn is_empty(&self) -> (r: bool)
        ensures
            r == (self@.len() == 0),
    {
        self.inner.len() == 0
    }

    /// The parameter at `i`.
    pub fn get(&self, i: usize) -> (r: &Param<'a>)
        requires
            i < self@.len(),
        ensures
            *r == self@[i as int],
    {
        &self.inner[i]
    }

    /// Appends all parameters of `other`, after those already here.
    pub fn append(&mut self, other: Params<'a>)
        ensures
            final(self)@ == old(self)@ + other@,
    {
        let mut other = other;
        self.inner.append(&mut other.inner);
    }

    /// Appends the parameters of `v`, in order.
    pub fn append_vec(&mut self, v: Vec<Param<'a>>)
        ensures
            final(self)@ == old(self)@ + v@,
    {
        let mut v = v;
        self.inner.append(&mut v);
    }

    /// Puts all parameters of `other` in front of those already here.
    pub fn prepend(&mut self, other: Params<'a>)
        ensures
            final(self)@ == other@ + old(self)@,
    {
        let mut front = other;
        front.inner.append(&mut self.inner);
        self.inner = front.inner;
    }
}

/// The part that a comparison of the column of `param` appends.
pub open spec fn comparison_part(kind: Operator, param: Param) -> WherePart {
    WherePart::Operation(
        WhereOperation {
            kind: if param.value().is_null_spec() && kind is Eq {
                Operator::IsNull
            } else if param.value().is_null_spec() && kind is Ne {
                Operator::IsNotNull
            } else {
                kind
            },
            column: param.name,
        },
    )
}

/// Whether a comparison with `param` binds it: all but a null compared by
/// `Eq` or `Ne`.
pub open spec fn comparison_binds(kind: Operator, param: Param) -> bool {
    !(param.value().is_null_spec() && (kind is Eq || kind is Ne))
}

/// Whether the parts and parameters after are those before with
/// `column LIKE $n` appended, bound to the owned text `pattern`.
pub open spec fn like_pushed<'a>(
    whr: Seq<WherePart>,
    params: Seq<Param<'a>>,
    whr2: Seq<WherePart>,
    params2: Seq<Param<'a>>,
    column: Seq<char>,
    pattern: Seq<char>,
) -> bool {
    &&& whr2.len() == whr.len() + 1
    &&& whr2.drop_last() == whr
    &&& whr2.last() matches WherePart::Operation(op) && op.kind == Operator::Like && op.column@
        == column
    &&& params2.len() == params.len() + 1
    &&& params2.drop_last() == params
    &&& params2.last().name@ == column
    &&& params2.last().data matches CowParamData::Owned(ColumnData::Text(Text::Owned(p))) && p@
        == pattern
}

/// Appends to `whr` a comparison of the column of `param`, and binds
/// `param` unless it is null and compared by `Eq` or `Ne`.
pub fn push_comparison<'a>(whr: &mut Where, params: &mut Params<'a>, kind: Operator, param: Param<'a>)
    requires
        kind.is_comparison(),
    ensures
        final(whr)@ == old(whr)@.push(comparison_part(kind, param)),
        final(params)@ == if comparison_binds(kind, param) {
            old(params)@.push(param)
        } else {
            old(params)@
        },
        where_slots(final(whr)@) + old(params)@.len() == where_slots(old(whr)@)
            + final(params)@.len(),
{
    proof {
        lemma_where_slots_push(whr@, comparison_part(kind, param));
    }
    let column = param.name.clone();
    if param.is_null() {
        match kind {
            Operator::Eq => {
                whr.push(WherePart::Operation(WhereOperation { kind: Operator::IsNull, column }));
                return ;
            },
            Operator::Ne => {
                whr.push(WherePart::Operation(WhereOperation { kind: Operator::IsNotNull, column }));
                return ;
            },
            _ => {},
        }
    }
    whr.push(WherePart::Operation(WhereOperation { kind, column }));
    params.push(param);
}

/// `value` with `%` before it and after it as asked.
fn like_pattern(left: bool, value: &str, right: bool) -> (r: String)
    ensures
        r@ == (if left { "%"@ } else { Seq::empty() }) + value@ + (if right { "%"@ } else { Seq::empty() }),
{
    let mut s = String::new();
    if left {
        s.append("%");
    }
    s.append(value);
    if right {
        s.append("%");
    }
    assert(s@ =~= (if left { "%"@ } else { Seq::<char>::empty() }) + value@ + (if right { "%"@ } else { Seq::<char>::empty() }));
    s
}

fn push_like<'a>(whr: &mut Where, params: &mut Params<'a>, column: &str, pattern: String)
    ensures
        like_pushed(old(whr)@, old(params)@, final(whr)@, final(params)@, column@, pattern@),
        where_slots(final(whr)@) + old(params)@.len() == where_slots(old(whr)@)
            + final(params)@.len(),
{
    let ghost w = whr@;
    let ghost pat = pattern@;
    let param = Param::new_owned(column, ColumnData::Text(Text::Owned(pattern)));
    let name = String::from_str(column);
    whr.push(WherePart::Operation(WhereOperation { kind: Operator::Like, column: name }));
    params.push(param);
    proof {
        lemma_where_slots_push(w, whr@.last());
        assert(w.push(whr@.last()) =~= whr@);
    }
    assert(final(whr)@.drop_last() =~= old(whr)@);
    assert(final(params)@.drop_last() =~= old(params)@);
}

/// Binds `values` in order and appends `column IN (...)` over them.
pub fn push_in<'a>(whr: &mut Where, params: &mut Params<'a>, column: &str, values: Vec<Param<'a>>)
    ensures
        final(whr)@.drop_last() == old(whr)@,
        final(whr)@.len() == old(whr)@.len() + 1,
        final(whr)@.last() matches WherePart::Operation(op) && op.column@ == column@ && op.kind
            == (Operator::In { length: values@.len() as usize }),
        final(params)@ == old(params)@ + values@,
        where_slots(final(whr)@) + old(params)@.len() == where_slots(old(whr)@)
            + final(params)@.len(),
{
    let ghost w = whr@;
    let length = values.len();
    let mut values = values;
    params.inner.append(&mut values);
    let name = String::from_str(column);
    whr.push(WherePart::Operation(WhereOperation { kind: Operator::In { length }, column: name }));
    proof {
        lemma_where_slots_push(w, whr@.last());
        assert(w.push(whr@.last()) =~= whr@);
    }
    assert(final(whr)@.drop_last() =~= old(whr)@);
}

/// A complete filter for a read: WHERE, ORDER BY, LIMIT, OFFSET and the
/// parameters of all of them.
#[derive(Debug)]
pub struct Filter<'a> {
    pub whr: Where,
    pub order_by: OrderBy,
    pub limit: Limit,
    pub offset: Offset,
    pub params: Params<'a>,
}

/// How many parameters precede a bound offset: all of them, but the last
/// when the offset is bound.
pub open spec fn limit_slot(offset: Offset, total: nat) -> nat {
    if offset is Param {
        (total - 1) as nat
    } else {
        total
    }
}

/// The text of a filter: its clauses, each with one leading space, in the
/// order WHERE, ORDER BY, LIMIT, OFFSET.
pub open spec fn filter_text(
    whr: Seq<WherePart>,
    order_by: Seq<OrderByPart>,
    limit: Limit,
    offset: Offset,
    total: nat,
) -> Seq<char> {
    where_text(whr, 0) + order_by_text(order_by) + limit_text(limit, limit_slot(offset, total))
        + offset_text(offset, total)
}

impl<'a> Filter<'a> {
    /// Whether there is one parameter for each slot that the WHERE
    /// expression, a bound limit and a bound offset take.
    pub open spec fn balanced(&self) -> bool {
        self.params@.len() == where_slots(self.whr@) + (if self.limit is Param {
            1nat
        } else {
            0nat
        }) + (if self.offset is Param {
            1nat
        } else {
            0nat
        })
    }

    pub fn new() -> (r: Self)
        ensures
            r.balanced(),
            r.whr@ == Seq::<WherePart>::empty(),
            r.order_by@ == Seq::<OrderByPart>::empty(),
            r.limit == Limit::All,
            r.offset == Offset::Zero,
            r.params@ == Seq::<Param<'a>>::empty(),
    {
        Filter {
            whr: Where::new(),
            order_by: OrderBy::new(),
            limit: Limit::new(),
            offset: Offset::new(),
            params: Params::new(),
        }
    }

    /// Appends a comparison of the column named by `param` with its value.
    /// A null value turns `Eq` into `IsNull` and `Ne` into `IsNotNull`, and
    /// is then not bound.
    pub fn push_comparison(&mut self, kind: Operator, param: Param<'a>)
        requires
            kind.is_comparison(),
        ensures
            old(self).balanced() ==> final(self).balanced(),
            final(self).whr@ == old(self).whr@.push(comparison_part(kind, param)),
            final(self).params@ == if comparison_binds(kind, param) {
                old(self).params@.push(param)
            } else {
                old(self).params@
            },
            final(self).order_by@ == old(self).order_by@,
            final(self).limit == old(self).limit,
            final(self).offset == old(self).offset,
    {
        push_comparison(&mut self.whr, &mut self.params, kind, param);
    }

    /// Appends `column LIKE '%value%'`.
    pub fn push_like_both(&mut self, column: &str, value: &str)
        ensures
            old(self).balanced() ==> final(self).balanced(),
            like_pushed(old(self).whr@, old(self).params@, final(self).whr@, final(self).params@, column@, "%"@ + value@ + "%"@),
            final(self).order_by@ == old(self).order_by@,
            final(self).limit == old(self).limit,
            final(self).offset == old(self).offset,
    {
        let p = like_pattern(true, value, true);
        push_like(&mut self.whr, &mut self.params, column, p);
    }

    /// Appends `column LIKE '%value'`.
    pub fn push_like_left(&mut self, column: &str, value: &str)
        ensures
            old(self).balanced() ==> final(self).balanced(),
            like_pushed(old(self).whr@, old(self).params@, final(self).whr@, final(self).params@, column@, "%"@ + value@),
            final(self).order_by@ == old(self).order_by@,
            final(self).limit == old(self).limit,
            final(self).offset == old(self).offset,
    {
        let p = like_pattern(true, value, false);
        push_like(&mut self.whr, &mut self.params, column, p);
    }

    /// Appends `column LIKE 'value%'`.
    pub fn push_like_right(&mut self, column: &str, value: &str)
        ensures
            old(self).balanced() ==> final(self).balanced(),
            like_pushed(old(self).whr@, old(self).params@, final(self).whr@, final(self).params@, column@, value@ + "%"@),
            final(self).order_by@ == old(self).order_by@,
            final(self).limit == old(self).limit,
            final(self).offset == old(self).offset,
    {
        let p = like_pattern(false, value, true);
        push_like(&mut self.whr, &mut self.params, column, p);
    }

    /// Appends `column IN (...)` over `values`, which are bound in order.
    pub fn push_in(&mut self, column: &str, values: Vec<Param<'a>>)
        ensures
            old(self).balanced() ==> final(self).balanced(),
            final(self).whr@.drop_last() == old(self).whr@,
            final(self).whr@.len() == old(self).whr@.len() + 1,
            final(self).whr@.last() matches WherePart::Operation(op) && op.column@ == column@
                && op.kind == (Operator::In { length: values@.len() as usize }),
            final(self).params@ == old(self).params@ + values@,
            final(self).order_by@ == old(self).order_by@,
            final(self).limit == old(self).limit,
            final(self).offset == old(self).offset,
    {
        push_in(&mut self.whr, &mut self.params, column, values);
    }

    /// Appends `AND`.
    pub fn push_and(&mut self)
        ensures
            old(self).balanced() ==> final(self).balanced(),
            final(self).whr@ == old(self).whr@.push(WherePart::And),
            final(self).params@ == old(self).params@,
            final(self).order_by@ == old(self).order_by@,
            final(self).limit == old(self).limit,
            final(self).offset == old(self).offset,
    {
        proof {
            lemma_where_slots_push(self.whr@, WherePart::And);
        }
        self.whr.push(WherePart::And);
    }

    /// Appends `OR`.
    pub fn push_or(&mut self)
        ensures
            old(self).balanced() ==> final(self).balanced(),
            final(self).whr@ == old(self).whr@.push(WherePart::Or),
            final(self).params@ == old(self).params@,
            final(self).order_by@ == old(self).order_by@,
            final(self).limit == old(self).limit,
            final(self).offset == old(self).offset,
    {
        proof {
            lemma_where_slots_push(self.whr@, WherePart::Or);
        }
        self.whr.push(WherePart::Or);
    }

    /// Binds `param` as the limit.
    pub fn set_limit_param(&mut self, param: Param<'a>)
        ensures
            final(self).limit == Limit::Param,
            final(self).params@ == old(self).params@.push(param),
            old(self).balanced() && !(old(self).limit is Param) ==> final(self).balanced(),
            final(self).whr@ == old(self).whr@,
            final(self).order_by@ == old(self).order_by@,
            final(self).offset == old(self).offset,
    {
        self.limit.set_param();
        self.params.push(param);
    }

    /// Binds `param` as the offset; it must be the last parameter bound.
    pub fn set_offset_param(&mut self, param: Param<'a>)
        ensures
            final(self).offset == Offset::Param,
            final(self).params@ == old(self).params@.push(param),
            old(self).balanced() && !(old(self).offset is Param) ==> final(self).balanced(),
            final(self).whr@ == old(self).whr@,
            final(self).order_by@ == old(self).order_by@,
            final(self).limit == old(self).limit,
    {
        self.offset.set_param();
        self.params.push(param);
    }

    /// Whether the filter can be rendered: its placeholder numbers fit in a
    /// `usize`, and a bound offset has its parameter.
    pub fn can_render(&self) -> (r: bool)
        ensures
            r == (where_slots(self.whr@) <= usize::MAX && (self.offset is Param
                ==> self.params@.len() >= 1)),
    {
        match self.whr.slots() {
            Some(_) => match self.offset {
                Offset::Param => self.params.len() >= 1,
                _ => true,
            },
            None => false,
        }
    }

    /// Appends the filter's text to `s`.
    #[verifier::rlimit(40)]
    pub fn push_sql(&self, s: &mut String)
        requires
            where_slots(self.whr@) <= usize::MAX,
            self.offset is Param ==> self.params@.len() >= 1,
        ensures
            final(s)@ == old(s)@ + filter_text(
                self.whr@,
                self.order_by@,
                self.limit,
                self.offset,
                self.params@.len(),
            ),
    {
        let ghost before = s@;
        self.whr.push_sql(s, 0);
        self.order_by.push_sql(s);
        let total = self.params.len();
        let count = match self.offset {
            Offset::Param => total - 1,
            _ => total,
        };
        match self.limit {
            Limit::Fixed(v) => {
                s.append(" LIMIT ");
                push_decimal(s, v);
            },
            Limit::Param => {
                s.append(" LIMIT $");
                push_decimal(s, count);
            },
            Limit::All => {},
        }
        match self.offset {
            Offset::Zero => {},
            Offset::Fixed(v) => {
                s.append(" OFFSET ");
                push_decimal(s, v);
            },
            Offset::Param => {
                s.append(" OFFSET $");
                push_decimal(s, total);
            },
        }
        assert(s@ =~= before + filter_text(
            self.whr@,
            self.order_by@,
            self.limit,
            self.offset,
            self.params@.len(),
        ));
    }

    /// The filter's text.
    pub fn to_string(&self) -> (r: String)
        requires
            where_slots(self.whr@) <= usize::MAX,
            self.offset is Param ==> self.params@.len() >= 1,
        ensures
            r@ == filter_text(
                self.whr@,
                self.order_by@,
                self.limit,
                self.offset,
                self.params@.len(),
            ),
    {
        let mut s = String::new();
        self.push_sql(&mut s);
        assert(s@ =~= filter_text(
            self.whr@,
            self.order_by@,
            self.limit,
            self.offset,
            self.params@.len(),
        ));
        s
    }
}

/// A WHERE expression with its parameters, for writes.
#[derive(Debug)]
pub struct WhereFilter<'a> {
    pub whr: Where,
    pub params: Params<'a>,
}

impl<'a> WhereFilter<'a> {
    /// Whether there is one parameter for each slot of the expression.
    pub open spec fn balanced(&self) -> bool {
        self.params@.len() == where_slots(self.whr@)
    }

    pub fn new() -> (r: Self)
        ensures
            r.balanced(),
            r.whr@ == Seq::<WherePart>::empty(),
            r.params@ == Seq::<Param<'a>>::empty(),
    {
        WhereFilter { whr: Where::new(), params: Params::new() }
    }

    /// Appends a comparison of the column named by `param` with its value.
    /// A null value turns `Eq` into `IsNull` and `Ne` into `IsNotNull`, and
    /// is then not bound.
    pub fn push_comparison(&mut self, kind: Operator, param: Param<'a>)
        requires
            kind.is_comparison(),
        ensures
            old(self).balanced() ==> final(self).balanced(),
            final(self).whr@ == old(self).whr@.push(comparison_part(kind, param)),
            final(self).params@ == if comparison_binds(kind, param) {
                old(self).params@.push(param)
            } else {
                old(self).params@
            },
    {
        push_comparison(&mut self.whr, &mut self.params, kind, param);
    }

    /// Appends `column LIKE '%value%'`.
    pub fn push_like_both(&mut self, column: &str, value: &str)
        ensures
            old(self).balanced() ==> final(self).balanced(),
            like_pushed(old(self).whr@, old(self).params@, final(self).whr@, final(self).params@, column@, "%"@ + value@ + "%"@),
    {
        let p = like_pattern(true, value, true);
        push_like(&mut self.whr, &mut self.params, column, p);
    }

    /// Appends `column LIKE '%value'`.
    pub fn push_like_left(&mut self, column: &str, value: &str)
        ensures
            old(self).balanced() ==> final(self).balanced(),
            like_pushed(old(self).whr@, old(self).params@, final(self).whr@, final(self).params@, column@, "%"@ + value@),
    {
        let p = like_pattern(true, value, false);
        push_like(&mut self.whr, &mut self.params, column, p);
    }

    /// Appends `column LIKE 'value%'`.
    pub fn push_like_right(&mut self, column: &str, value: &str)
        ensures
            old(self).balanced() ==> final(self).balanced(),
            like_pushed(old(self).whr@, old(self).params@, final(self).whr@, final(self).params@, column@, value@ + "%"@),
    {
        let p = like_pattern(false, value, true);
        push_like(&mut self.whr, &mut self.params, column, p);
    }

    /// Appends `column IN (...)` over `values`, which are bound in order.
    pub fn push_in(&mut self, column: &str, values: Vec<Param<'a>>)
        ensures
            old(self).balanced() ==> final(self).balanced(),
            final(self).whr@.drop_last() == old(self).whr@,
            final(self).whr@.len() == old(self).whr@.len() + 1,
            final(self).whr@.last() matches WherePart::Operation(op) && op.column@ == column@
                && op.kind == (Operator::In { length: values@.len() as usize }),
            final(self).params@ == old(self).params@ + values@,
    {
        push_in(&mut self.whr, &mut self.params, column, values);
    }

    /// Appends `AND`.
    pub fn push_and(&mut self)
        ensures
            old(self).balanced() ==> final(self).balanced(),
            final(self).whr@ == old(self).whr@.push(WherePart::And),
            final(self).params@ == old(self).params@,
    {
        proof {
            lemma_where_slots_push(self.whr@, WherePart::And);
        }
        self.whr.push(WherePart::And);
    }

    /// Appends `OR`.
    pub fn push_or(&mut self)
        ensures
            old(self).balanced() ==> final(self).balanced(),
            final(self).whr@ == old(self).whr@.push(WherePart::Or),
            final(self).params@ == old(self).params@,
    {
        proof {
            lemma_where_slots_push(self.whr@, WherePart::Or);
        }
        self.whr.push(WherePart::Or);
    }

    /// The WHERE clause with parameters numbered from `$1`.
    pub fn to_string(&self) -> (r: String)
        requires
            where_slots(self.whr@) <= usize::MAX,
        ensures
            r@ == where_text(self.whr@, 0),
    {
        self.whr.to_sql(0)
    }
}

/// Whether a value to bind is null.
pub trait ParamData {
    /// Whether the value is null.
    spec fn is_null_spec(&self) -> bool;

    fn is_null(&self) -> (r: bool)
        ensures
            r == self.is_null_spec(),
    ;
}

impl<'a> ParamData for ColumnData<'a> {
    open spec fn is_null_spec(&self) -> bool {
        self matches ColumnData::Option(None)
    }

    fn is_null(&self) -> (r: bool) {
        match self {
            ColumnData::Option(None) => true,
            _ => false,
        }
    }
}

impl<T> ParamData for Option<T> {
    open spec fn is_null_spec(&self) -> bool {
        self is None
    }

    fn is_null(&self) -> (r: bool) {
        self.is_none()
    }
}

impl<T> ParamData for Vec<T> {
    /// An array is never null, not even an empty one.
    open spec fn is_null_spec(&self) -> bool {
        false
    }

    fn is_null(&self) -> (r: bool) {
        false
    }
}

impl ParamData for String {
    open spec fn is_null_spec(&self) -> bool {
        false
    }

    fn is_null(&self) -> (r: bool) {
        false
    }
}

impl ParamData for bool {
    open spec fn is_null_spec(&self) -> bool {
        false
    }

    fn is_null(&self) -> (r: bool) {
        false
    }
}

impl ParamData for i64 {
    open spec fn is_null_spec(&self) -> bool {
        false
    }

    fn is_null(&self) -> (r: bool) {
        false
    }
}

impl ParamData for i32 {
    open spec fn is_null_spec(&self) -> bool {
        false
    }

    fn is_null(&self) -> (r: bool) {
        false
    }
}

impl ParamData for i16 {
    open spec fn is_null_spec(&self) -> bool {
        false
    }

    fn is_null(&self) -> (r: bool) {
        false
    }
}

impl ParamData for crate::uid::UniqueId {
    open spec fn is_null_spec(&self) -> bool {
        false
    }

    fn is_null(&self) -> (r: bool) {
        false
    }
}

impl ParamData for crate::time::Date {
    open spec fn is_null_spec(&self) -> bool {
        false
    }

    fn is_null(&self) -> (r: bool) {
        false
    }
}

impl ParamData for crate::time::DateTime {
    open spec fn is_null_spec(&self) -> bool {
        false
    }

    fn is_null(&self) -> (r: bool) {
        false
    }
}

impl ParamData for crate::time::Timeout {
    open spec fn is_null_spec(&self) -> bool {
        false
    }

    fn is_null(&self) -> (r: bool) {
        false
    }
}

/// Whether the word `WHERE` occurs anywhere in `s`.
pub open spec fn holds_where(s: Seq<char>) -> bool {
    exists|i: int| 0 <= i && i + 5 <= s.len() && #[trigger] s.subrange(i, i + 5) == "WHERE"@
}

/// Whether `c` is one of the letters of `WHERE`.
pub open spec fn where_letter(c: char) -> bool {
    c == 'W' || c == 'H' || c == 'E' || c == 'R'
}

proof fn lemma_where_chars()
    ensures
        "WHERE"@ == seq!['W', 'H', 'E', 'R', 'E'],
{
    reveal_strlit("WHERE");
    assert("WHERE"@ =~= seq!['W', 'H', 'E', 'R', 'E']);
}

/// Text without a `W` holds no `WHERE`.
proof fn lemma_no_w(s: Seq<char>)
    requires
        forall|i: int| 0 <= i < s.len() ==> s[i] != 'W',
    ensures
        !holds_where(s),
{
    lemma_where_chars();
    if holds_where(s) {
        let i = choose|i: int| 0 <= i && i + 5 <= s.len() && #[trigger] s.subrange(i, i + 5) == "WHERE"@;
        assert(s.subrange(i, i + 5)[0] == 'W');
    }
}

/// Two texts without `WHERE` joined at a character that is no letter of it
/// hold no `WHERE`.
proof fn lemma_concat_no_where(a: Seq<char>, b: Seq<char>)
    requires
        !holds_where(a),
        !holds_where(b),
        a.len() == 0 || b.len() == 0 || !where_letter(a.last()) || !where_letter(b[0]),
    ensures
        !holds_where(a + b),
{
    lemma_where_chars();
    let ab = a + b;
    if holds_where(ab) {
        let i = choose|i: int| 0 <= i && i + 5 <= ab.len() && #[trigger] ab.subrange(i, i + 5) == "WHERE"@;
        let w = ab.subrange(i, i + 5);
        if i + 5 <= a.len() {
            assert(a.subrange(i, i + 5) =~= w);
        } else if i >= a.len() {
            assert(b.subrange(i - a.len(), i - a.len() + 5) =~= w);
        } else {
            let k = a.len() - 1 - i;
            assert(w[k] == a.last());
            assert(w[k + 1] == b[0]);
        }
    }
}

proof fn lemma_decimal_no_where(n: nat)
    ensures
        forall|i: int| 0 <= i < decimal(n).len() ==> !where_letter(#[trigger] decimal(n)[i]),
        decimal(n).len() > 0,
        !holds_where(decimal(n)),
    decreases n,
{
    if n >= 10 {
        lemma_decimal_no_where(n / 10);
        assert forall|i: int| 0 <= i < decimal(n).len() implies !where_letter(
            #[trigger] decimal(n)[i],
        ) by {
            if i < decimal(n / 10).len() {
                assert(decimal(n)[i] == decimal(n / 10)[i]);
            }
        }
    }
    lemma_no_w(decimal(n));
}

proof fn lemma_quoted_no_where(c: Seq<char>)
    requires
        !holds_where(c),
    ensures
        !holds_where(quoted(c)),
        quoted(c).len() > 0,
        quoted(c).last() == '"',
        quoted(c)[0] == '"',
{
    lemma_no_w(seq!['"']);
    lemma_concat_no_where(seq!['"'], c);
    lemma_concat_no_where(seq!['"'] + c, seq!['"']);
}

proof fn lemma_order_list_no_where(parts: Seq<OrderByPart>)
    requires
        forall|i: int| 0 <= i < parts.len() ==> !holds_where(order_column(#[trigger] parts[i])),
    ensures
        !holds_where(order_list_text(parts)),
        parts.len() > 0 ==> order_list_text(parts).len() > 0 && order_list_text(parts).last() == 'C',
    decreases parts.len(),
{
    reveal_strlit(" ASC");
    reveal_strlit(" DESC");
    reveal_strlit(", ");
    if parts.len() > 0 {
        let last = parts.last();
        assert(!holds_where(order_column(parts[parts.len() - 1])));
        lemma_quoted_no_where(order_column(last));
        let tail = match last {
            OrderByPart::Asc(_) => " ASC"@,
            OrderByPart::Desc(_) => " DESC"@,
        };
        lemma_no_w(tail);
        lemma_concat_no_where(quoted(order_column(last)), tail);
        assert(order_part_text(last) == quoted(order_column(last)) + tail);
        if parts.len() > 1 {
            assert forall|i: int| 0 <= i < parts.drop_last().len() implies !holds_where(
                order_column(#[trigger] parts.drop_last()[i]),
            ) by {
                assert(parts.drop_last()[i] == parts[i]);
            }
            lemma_order_list_no_where(parts.drop_last());
            lemma_no_w(", "@);
            lemma_concat_no_where(order_list_text(parts.drop_last()), ", "@);
            lemma_concat_no_where(order_list_text(parts.drop_last()) + ", "@, order_part_text(last));
        } else {
            assert(parts[0] == last);
        }
    }
}

/// The column of an ORDER BY entry.
pub open spec fn order_column(p: OrderByPart) -> Seq<char> {
    match p {
        OrderByPart::Asc(c) => c@,
        OrderByPart::Desc(c) => c@,
    }
}

/// A filter with an empty WHERE expression renders without the word
/// `WHERE`, provided no column it orders by holds that word itself.
pub proof fn lemma_empty_where_renders_no_where(
    order_by: Seq<OrderByPart>,
    limit: Limit,
    offset: Offset,
    total: nat,
)
    requires
        forall|i: int| 0 <= i < order_by.len() ==> !holds_where(order_column(#[trigger] order_by[i])),
    ensures
        !holds_where(filter_text(Seq::empty(), order_by, limit, offset, total)),
{
    reveal_strlit(" ORDER BY ");
    reveal_strlit(" LIMIT ");
    reveal_strlit(" LIMIT $");
    reveal_strlit(" OFFSET ");
    reveal_strlit(" OFFSET $");
    lemma_order_list_no_where(order_by);
    let ob = order_by_text(order_by);
    if order_by.len() > 0 {
        lemma_no_w(" ORDER BY "@);
        lemma_concat_no_where(" ORDER BY "@, order_list_text(order_by));
    } else {
        lemma_no_w(ob);
    }
    assert(ob.len() == 0 || !where_letter(ob.last()));
    let lt = limit_text(limit, limit_slot(offset, total));
    match limit {
        Limit::Fixed(v) => {
            lemma_decimal_no_where(v as nat);
            lemma_no_w(" LIMIT "@);
            lemma_concat_no_where(" LIMIT "@, decimal(v as nat));
            assert(lt.last() == decimal(v as nat).last());
        },
        Limit::Param => {
            lemma_decimal_no_where(limit_slot(offset, total));
            lemma_no_w(" LIMIT $"@);
            lemma_concat_no_where(" LIMIT $"@, decimal(limit_slot(offset, total)));
            assert(lt.last() == decimal(limit_slot(offset, total)).last());
        },
        Limit::All => {
            lemma_no_w(lt);
        },
    }
    let ot = offset_text(offset, total);
    match offset {
        Offset::Fixed(v) => {
            lemma_decimal_no_where(v as nat);
            lemma_no_w(" OFFSET "@);
            lemma_concat_no_where(" OFFSET "@, decimal(v as nat));
        },
        Offset::Param => {
            lemma_decimal_no_where(total);
            lemma_no_w(" OFFSET $"@);
            lemma_concat_no_where(" OFFSET $"@, decimal(total));
        },
        Offset::Zero => {
            lemma_no_w(ot);
        },
    }
    lemma_concat_no_where(ob, lt);
    lemma_concat_no_where(ob + lt, ot);
    assert(where_text(Seq::empty(), 0) + ob =~= ob);
    assert(filter_text(Seq::empty(), order_by, limit, offset, total) =~= ob + lt + ot);
}

/// The placeholder numbers of a filter's text, in order: those of the
/// WHERE expression, then a bound limit, then a bound offset.
pub open spec fn filter_numbers(whr: Seq<WherePart>, limit: Limit, offset: Offset, total: nat) -> Seq<
    nat,
> {
    where_numbers(whr, 0) + (if limit is Param {
        seq![limit_slot(offset, total)]
    } else {
        Seq::empty()
    }) + (if offset is Param {
        seq![total]
    } else {
        Seq::empty()
    })
}

/// In a filter with one parameter per slot, whose limit and offset
/// parameters come last, the placeholders of the text are `$1` to `$n` in
/// order, `n` being the number of parameters: the k-th placeholder binds
/// the k-th parameter.
pub proof fn lemma_balanced_filter_numbers(f: Filter)
    requires
        f.balanced(),
    ensures
        filter_numbers(f.whr@, f.limit, f.offset, f.params@.len()) == consecutive(
            0,
            f.params@.len(),
        ),
{
    lemma_where_numbers(f.whr@, 0);
    assert(filter_numbers(f.whr@, f.limit, f.offset, f.params@.len()) =~= consecutive(
        0,
        f.params@.len(),
    ));
}

} // verus!
