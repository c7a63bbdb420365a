//! Column metadata: the kind of a column, its index role, and the types
//! that can be stored in a column.
use vstd::prelude::*;
use vstd::string::*;

use crate::data::{ColumnData, FromDataError, Text, TextArray};
use crate::text::{decimal, push_decimal};

verus! {

/// The SQL type of a column.
#[derive(Debug, PartialEq, Eq)]
pub enum ColumnKind {
    Boolean,
    Varchar(usize),
    FixedText(usize),
    Text,
    Date,
    Timestamp,
    F64,
    F32,
    I64,
    I32,
    I16,
    Option(Box<ColumnKind>),
    TextArray,
    Bytea,
    Json,
}

/// A copy of `k`.
pub fn clone_kind(k: &ColumnKind) -> (r: ColumnKind)
    ensures
        r == *k,
    decreases k,
{
    match k {
        ColumnKind::Boolean => ColumnKind::Boolean,
        ColumnKind::Varchar(v) => ColumnKind::Varchar(*v),
        ColumnKind::FixedText(v) => ColumnKind::FixedText(*v),
        ColumnKind::Text => ColumnKind::Text,
        ColumnKind::Date => ColumnKind::Date,
        ColumnKind::Timestamp => ColumnKind::Timestamp,
        ColumnKind::F64 => ColumnKind::F64,
        ColumnKind::F32 => ColumnKind::F32,
        ColumnKind::I64 => ColumnKind::I64,
        ColumnKind::I32 => ColumnKind::I32,
        ColumnKind::I16 => ColumnKind::I16,
        ColumnKind::Option(t) => ColumnKind::Option(Box::new(clone_kind(t))),
        ColumnKind::TextArray => ColumnKind::TextArray,
        ColumnKind::Bytea => ColumnKind::Bytea,
        ColumnKind::Json => ColumnKind::Json,
    }
}

impl Clone for ColumnKind {
    fn clone(&self) -> (r: Self)
        ensures
            r == *self,
    {
        clone_kind(self)
    }
}

/// The SQL type name of a kind.
pub open spec fn kind_short(k: ColumnKind) -> Seq<char>
    decreases k,
{
    match k {
        ColumnKind::Boolean => "boolean"@,
        ColumnKind::Varchar(_) => "varchar"@,
        ColumnKind::FixedText(_) => "text"@,
        ColumnKind::Text => "text"@,
        ColumnKind::Date => "date"@,
        ColumnKind::Timestamp => "timestamp"@,
        ColumnKind::F64 => "float8"@,
        ColumnKind::F32 => "float4"@,
        ColumnKind::I64 => "int8"@,
        ColumnKind::I32 => "int4"@,
        ColumnKind::I16 => "int2"@,
        ColumnKind::Option(t) => kind_short(*t),
        ColumnKind::TextArray => "text []"@,
        ColumnKind::Bytea => "bytea"@,
        ColumnKind::Json => "json"@,
    }
}

/// What follows the type name of a kind in a column definition: a length
/// bound, a length check on column `name`, or nothing.
pub open spec fn kind_value(k: ColumnKind, name: Seq<char>) -> Seq<char>
    decreases k,
{
    match k {
        ColumnKind::Varchar(v) => "("@ + decimal(v as nat) + ")"@,
        ColumnKind::FixedText(v) => " CHECK (length("@ + name + ")="@ + decimal(v as nat) + ")"@,
        ColumnKind::Option(t) => kind_value(*t, name),
        _ => Seq::empty(),
    }
}

/// The nullability marker of a kind.
pub open spec fn kind_not_null(k: ColumnKind) -> Seq<char> {
    match k {
        ColumnKind::Option(_) => "null"@,
        _ => "not null"@,
    }
}

impl ColumnKind {
    /// The SQL type name.
    pub fn short(&self) -> (r: &'static str)
        ensures
            r@ == kind_short(*self),
        decreases self,
    {
        match self {
            ColumnKind::Boolean => "boolean",
            ColumnKind::Varchar(_) => "varchar",
            ColumnKind::FixedText(_) => "text",
            ColumnKind::Text => "text",
            ColumnKind::Date => "date",
            ColumnKind::Timestamp => "timestamp",
            ColumnKind::F64 => "float8",
            ColumnKind::F32 => "float4",
            ColumnKind::I64 => "int8",
            ColumnKind::I32 => "int4",
            ColumnKind::I16 => "int2",
            ColumnKind::Option(t) => t.short(),
            ColumnKind::TextArray => "text []",
            ColumnKind::Bytea => "bytea",
            ColumnKind::Json => "json",
        }
    }

    /// The length bound or length check that follows the type name.
    pub fn value(&self, name: &str) -> (r: String)
        ensures
            r@ == kind_value(*self, name@),
        decreases self,
    {
        match self {
            ColumnKind::Varchar(v) => {
                let mut s = String::from_str("(");
                push_decimal(&mut s, *v);
                s.append(")");
                assert(s@ =~= kind_value(*self, name@));
                s
            },
            ColumnKind::FixedText(v) => {
                let mut s = String::from_str(" CHECK (length(");
                s.append(name);
                s.append(")=");
                push_decimal(&mut s, *v);
                s.append(")");
                assert(s@ =~= kind_value(*self, name@));
                s
            },
            ColumnKind::Option(t) => t.value(name),
            _ => String::new(),
        }
    }

    /// The type name followed by its length bound or check.
    pub fn to_string(&self, name: &str) -> (r: String)
        ensures
            r@ == kind_short(*self) + kind_value(*self, name@),
    {
        let mut s = String::from_str(self.short());
        let v = self.value(name);
        s.append(v.as_str());
        s
    }

    /// `null` for a nullable kind, `not null` for any other.
    pub fn not_null_str(&self) -> (r: &'static str)
        ensures
            r@ == kind_not_null(*self),
    {
        match self {
            ColumnKind::Option(_) => "null",
            _ => "not null",
        }
    }
}

/// The index role of a column.
#[derive(Debug, Clone, PartialEq)]
pub enum IndexKind {
    Primary,
    Unique,
    /// Columns that share the name form one unique constraint.
    NamedUnique(&'static str),
    Index,
    NoIndex,
}

impl IndexKind {
    pub fn is_none(&self) -> (r: bool)
        ensures
            r == (*self is NoIndex),
    {
        match self {
            IndexKind::NoIndex => true,
            _ => false,
        }
    }
}

/// One column of a table.
#[derive(Debug, Clone, PartialEq)]
pub struct Column {
    pub name: &'static str,
    pub kind: ColumnKind,
    pub index: IndexKind,
}

impl Column {
    /// A column of type `T`; a length turns a text column into a bounded
    /// `varchar`, and is only accepted for text.
    pub fn new<T: ColumnType>(name: &'static str, len: Option<usize>, index: IndexKind) -> (r: Self)
        requires
            len is Some ==> T::kind_spec() is Text,
        ensures
            r.name == name,
            r.index == index,
            r.kind == match len {
                Some(l) => ColumnKind::Varchar(l),
                None => T::kind_spec(),
            },
    {
        let kind = T::column_kind();
        match len {
            Some(l) => Column { name, kind: ColumnKind::Varchar(l), index },
            None => Column { name, kind, index },
        }
    }
}

/// A type whose values can be stored in a column.
pub trait ColumnType: Sized {
    /// The kind of column that holds values of the type.
    spec fn kind_spec() -> ColumnKind;

    /// The column value that stands for `self`.
    spec fn data_spec(&self) -> ColumnData<'static>;

    /// Whether `r` is what reading `data` back gives.
    spec fn reads_back(data: ColumnData, r: Result<Self, FromDataError>) -> bool;

    /// Reading back what was stored gives the value stored.
    proof fn lemma_round_trip(x: Self, r: Result<Self, FromDataError>)
        requires
            Self::reads_back(x.data_spec(), r),
        ensures
            r == Ok::<Self, FromDataError>(x),
    ;

    fn column_kind() -> (r: ColumnKind)
        ensures
            r == Self::kind_spec(),
    ;

    fn to_data(&self) -> (r: ColumnData<'static>)
        ensures
            r == self.data_spec(),
    ;

    fn from_data(data: ColumnData) -> (r: Result<Self, FromDataError>)
        ensures
            Self::reads_back(data, r),
    ;
}

impl ColumnType for bool {
    open spec fn kind_spec() -> ColumnKind {
        ColumnKind::Boolean
    }

    open spec fn data_spec(&self) -> ColumnData<'static> {
        ColumnData::Boolean(*self)
    }

    open spec fn reads_back(data: ColumnData, r: Result<Self, FromDataError>) -> bool {
        r == match data {
            ColumnData::Boolean(v) => Ok(v),
            _ => Err(FromDataError::ExpectedType("bool")),
        }
    }

    proof fn lemma_round_trip(x: Self, r: Result<Self, FromDataError>) {
    }

    fn column_kind() -> (r: ColumnKind) {
        ColumnKind::Boolean
    }

    fn to_data(&self) -> (r: ColumnData<'static>) {
        ColumnData::Boolean(*self)
    }

    fn from_data(data: ColumnData) -> (r: Result<Self, FromDataError>) {
        match data {
            ColumnData::Boolean(v) => Ok(v),
            _ => Err(FromDataError::ExpectedType("bool")),
        }
    }
}

impl ColumnType for i64 {
    open spec fn kind_spec() -> ColumnKind {
        ColumnKind::I64
    }

    open spec fn data_spec(&self) -> ColumnData<'static> {
        ColumnData::I64(*self)
    }

    open spec fn reads_back(data: ColumnData, r: Result<Self, FromDataError>) -> bool {
        r == match data {
            ColumnData::I64(v) => Ok(v),
            _ => Err(FromDataError::ExpectedType("i64")),
        }
    }

    proof fn lemma_round_trip(x: Self, r: Result<Self, FromDataError>) {
    }

    fn column_kind() -> (r: ColumnKind) {
        ColumnKind::I64
    }

    fn to_data(&self) -> (r: ColumnData<'static>) {
        ColumnData::I64(*self)
    }

    fn from_data(data: ColumnData) -> (r: Result<Self, FromDataError>) {
        match data {
            ColumnData::I64(v) => Ok(v),
            _ => Err(FromDataError::ExpectedType("i64")),
        }
    }
}

impl ColumnType for i32 {
    open spec fn kind_spec() -> ColumnKind {
        ColumnKind::I32
    }

    open spec fn data_spec(&self) -> ColumnData<'static> {
        ColumnData::I32(*self)
    }

    open spec fn reads_back(data: ColumnData, r: Result<Self, FromDataError>) -> bool {
        r == match data {
            ColumnData::I32(v) => Ok(v),
            _ => Err(FromDataError::ExpectedType("i32")),
        }
    }

    proof fn lemma_round_trip(x: Self, r: Result<Self, FromDataError>) {
    }

    fn column_kind() -> (r: ColumnKind) {
        ColumnKind::I32
    }

    fn to_data(&self) -> (r: ColumnData<'static>) {
        ColumnData::I32(*self)
    }

    fn from_data(data: ColumnData) -> (r: Result<Self, FromDataError>) {
        match data {
            ColumnData::I32(v) => Ok(v),
            _ => Err(FromDataError::ExpectedType("i32")),
        }
    }
}

impl ColumnType for i16 {
    open spec fn kind_spec() -> ColumnKind {
        ColumnKind::I16
    }

    open spec fn data_spec(&self) -> ColumnData<'static> {
        ColumnData::I16(*self)
    }

    open spec fn reads_back(data: ColumnData, r: Result<Self, FromDataError>) -> bool {
        r == match data {
            ColumnData::I16(v) => Ok(v),
            _ => Err(FromDataError::ExpectedType("i16")),
        }
    }

    proof fn lemma_round_trip(x: Self, r: Result<Self, FromDataError>) {
    }

    fn column_kind() -> (r: ColumnKind) {
        ColumnKind::I16
    }

    fn to_data(&self) -> (r: ColumnData<'static>) {
        ColumnData::I16(*self)
    }

    fn from_data(data: ColumnData) -> (r: Result<Self, FromDataError>) {
        match data {
            ColumnData::I16(v) => Ok(v),
            _ => Err(FromDataError::ExpectedType("i16")),
        }
    }
}

impl ColumnType for String {
    open spec fn kind_spec() -> ColumnKind {
        ColumnKind::Text
    }

    open spec fn data_spec(&self) -> ColumnData<'static> {
        ColumnData::Text(Text::Owned(*self))
    }

    /// Owned text is handed over as it is; borrowed text is copied.
    open spec fn reads_back(data: ColumnData, r: Result<Self, FromDataError>) -> bool {
        match data {
            ColumnData::Text(Text::Owned(s)) => r == Ok::<String, FromDataError>(s),
            ColumnData::Text(Text::Borrowed(b)) => r is Ok && r->Ok_0@ == b@,
            _ => r == Err::<String, FromDataError>(FromDataError::ExpectedType("text")),
        }
    }

    proof fn lemma_round_trip(x: Self, r: Result<Self, FromDataError>) {
    }

    fn column_kind() -> (r: ColumnKind) {
        ColumnKind::Text
    }

    fn to_data(&self) -> (r: ColumnData<'static>) {
        ColumnData::Text(Text::Owned(self.clone()))
    }

    fn from_data(data: ColumnData) -> (r: Result<Self, FromDataError>) {
        match data {
            ColumnData::Text(Text::Owned(s)) => Ok(s),
            ColumnData::Text(Text::Borrowed(b)) => Ok(String::from_str(b)),
            _ => Err(FromDataError::ExpectedType("text")),
        }
    }
}

/// Whether `r` is what reading `data` back as a present `T` gives.
pub open spec fn reads_back_some<T: ColumnType>(
    data: ColumnData,
    r: Result<Option<T>, FromDataError>,
) -> bool {
    match r {
        Ok(Some(v)) => T::reads_back(data, Ok(v)),
        Ok(None) => false,
        Err(e) => T::reads_back(data, Err(e)),
    }
}

fn from_data_some<T: ColumnType>(data: ColumnData) -> (r: Result<Option<T>, FromDataError>)
    ensures
        reads_back_some::<T>(data, r),
{
    match T::from_data(data) {
        Ok(v) => Ok(Some(v)),
        Err(e) => Err(e),
    }
}

impl<T: ColumnType> ColumnType for Option<T> {
    open spec fn kind_spec() -> ColumnKind {
        ColumnKind::Option(Box::new(T::kind_spec()))
    }

    open spec fn data_spec(&self) -> ColumnData<'static> {
        match self {
            Some(v) => ColumnData::Option(Some(Box::new(v.data_spec()))),
            None => ColumnData::Option(None),
        }
    }

    /// An absent value reads back as `None`; a present one, or a bare value
    /// of `T`, as `Some` of what `T` reads back.
    open spec fn reads_back(data: ColumnData, r: Result<Self, FromDataError>) -> bool {
        match data {
            ColumnData::Option(None) => r == Ok::<Option<T>, FromDataError>(None),
            ColumnData::Option(Some(b)) => reads_back_some::<T>(*b, r),
            _ => reads_back_some::<T>(data, r),
        }
    }

    proof fn lemma_round_trip(x: Self, r: Result<Self, FromDataError>) {
        match x {
            Some(v) => {
                match r {
                    Ok(Some(w)) => T::lemma_round_trip(v, Ok(w)),
                    Err(e) => T::lemma_round_trip(v, Err(e)),
                    Ok(None) => {},
                }
            },
            None => {},
        }
    }

    fn column_kind() -> (r: ColumnKind) {
        ColumnKind::Option(Box::new(T::column_kind()))
    }

    fn to_data(&self) -> (r: ColumnData<'static>) {
        match self {
            Some(v) => ColumnData::Option(Some(Box::new(v.to_data()))),
            None => ColumnData::Option(None),
        }
    }

    fn from_data(data: ColumnData) -> (r: Result<Self, FromDataError>) {
        match data {
            ColumnData::Option(None) => Ok(None),
            ColumnData::Option(Some(b)) => from_data_some::<T>(*b),
            _ => from_data_some::<T>(data),
        }
    }
}

} // verus!
