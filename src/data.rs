//! The values that travel between a column and the driver: a tagged union
//! over the column kinds, with text in owned or borrowed form.
use vstd::prelude::*;
use vstd::string::*;
use vstd::utf8::encode_utf8;

verus! {

/// Text that is either owned or borrowed.
#[derive(Debug, Clone, PartialEq)]
pub enum Text<'a> {
    Owned(String),
    Borrowed(&'a str),
}

impl<'a> View for Text<'a> {
    type V = Seq<char>;

    open spec fn view(&self) -> Seq<char> {
        match self {
            Text::Owned(s) => s@,
            Text::Borrowed(s) => s@,
        }
    }
}

impl<'a> Text<'a> {
    /// The text as an owned string.
    pub fn into_string(self) -> (r: String)
        ensures
            r@ == self@,
    {
        match self {
            Text::Owned(s) => s,
            Text::Borrowed(b) => String::from_str(b),
        }
    }

    /// The text as a string slice.
    pub fn as_str(&self) -> (r: &str)
        ensures
            r@ == self@,
    {
        match self {
            Text::Owned(s) => s.as_str(),
            Text::Borrowed(b) => *b,
        }
    }

    /// The length of the text in bytes of UTF-8.
    pub fn len(&self) -> (r: usize)
        ensures
            r == encode_utf8(self@).len(),
    {
        let s = self.as_str();
        s.as_bytes().len()
    }
}

/// A borrowed view of the strings of a text array.
pub enum SliceState<'a> {
    Owned(&'a [String]),
    Borrowed(&'a [&'a str]),
}

/// An array of texts, owned or borrowed, as a vector or a slice.
#[derive(Debug, Clone, PartialEq)]
pub enum TextArray<'a> {
    SliceOwned(&'a [String]),
    SliceStr(&'a [&'a str]),
    VecOwned(Vec<String>),
    VecStr(Vec<&'a str>),
}

/// The characters of each string in `v`.
pub open spec fn strings_view(v: Seq<String>) -> Seq<Seq<char>> {
    v.map_values(|s: String| s@)
}

/// Appending a string appends its characters.
pub proof fn lemma_strings_view_push(v: Seq<String>, s: String)
    ensures
        strings_view(v.push(s)) == strings_view(v).push(s@),
{
    assert(strings_view(v.push(s)) =~= strings_view(v).push(s@));
}

/// The characters of each string slice in `v`.
pub open spec fn strs_view<'a>(v: Seq<&'a str>) -> Seq<Seq<char>> {
    v.map_values(|s: &'a str| s@)
}

impl<'a> View for TextArray<'a> {
    type V = Seq<Seq<char>>;

    open spec fn view(&self) -> Seq<Seq<char>> {
        match self {
            TextArray::SliceOwned(v) => strings_view(v@),
            TextArray::SliceStr(v) => strs_view(v@),
            TextArray::VecOwned(v) => strings_view(v@),
            TextArray::VecStr(v) => strs_view(v@),
        }
    }
}

fn strings_to_owned(v: &[String]) -> (r: Vec<String>)
    ensures
        strings_view(r@) == strings_view(v@),
{
    let mut out: Vec<String> = Vec::new();
    let mut i: usize = 0;
    while i < v.len()
        invariant
            i <= v@.len(),
            out@.len() == i,
            strings_view(out@) =~= strings_view(v@.subrange(0, i as int)),
        decreases v@.len() - i,
    {
        let item = v[i].clone();
        assert(item@ == v@[i as int]@);
        let ghost prev = out@;
        out.push(item);
        i = i + 1;
        assert forall|j: int| 0 <= j < i implies #[trigger] strings_view(out@)[j]
            == strings_view(v@.subrange(0, i as int))[j] by {
            if j < i - 1 {
                assert(strings_view(prev)[j] == strings_view(v@.subrange(0, i - 1))[j]);
            }
        }
        assert(strings_view(out@) =~= strings_view(v@.subrange(0, i as int)));
    }
    assert(v@.subrange(0, v@.len() as int) =~= v@);
    out
}

fn strs_to_owned<'b>(v: &[&'b str]) -> (r: Vec<String>)
    ensures
        strings_view(r@) == strs_view(v@),
{
    let mut out: Vec<String> = Vec::new();
    let mut i: usize = 0;
    while i < v.len()
        invariant
            i <= v@.len(),
            out@.len() == i,
            strings_view(out@) =~= strs_view(v@.subrange(0, i as int)),
        decreases v@.len() - i,
    {
        let item = String::from_str(v[i]);
        assert(item@ == v@[i as int]@);
        let ghost prev = out@;
        out.push(item);
        i = i + 1;
        assert forall|j: int| 0 <= j < i implies #[trigger] strings_view(out@)[j]
            == strs_view(v@.subrange(0, i as int))[j] by {
            if j < i - 1 {
                assert(strings_view(prev)[j] == strs_view(v@.subrange(0, i - 1))[j]);
            }
        }
        assert(strings_view(out@) =~= strs_view(v@.subrange(0, i as int)));
    }
    assert(v@.subrange(0, v@.len() as int) =~= v@);
    out
}

impl<'a> TextArray<'a> {
    /// The number of texts.
    pub fn len(&self) -> (r: usize)
        ensures
            r as nat == self@.len(),
    {
        match self {
            TextArray::SliceOwned(v) => v.len(),
            TextArray::SliceStr(v) => v.len(),
            TextArray::VecOwned(v) => v.len(),
            TextArray::VecStr(v) => v.len(),
        }
    }

    /// The texts as owned strings.
    pub fn into_vec_owned(self) -> (r: Vec<String>)
        ensures
            strings_view(r@) == self@,
    {
        match self {
            TextArray::SliceOwned(s) => strings_to_owned(s),
            TextArray::SliceStr(s) => strs_to_owned(s),
            TextArray::VecOwned(v) => v,
            TextArray::VecStr(v) => strs_to_owned(v.as_slice()),
        }
    }

    /// The vector of string slices that this array holds.
    pub fn unwrap_vec_str(self) -> (r: Vec<&'a str>)
        requires
            self is VecStr,
        ensures
            self == TextArray::VecStr(r),
    {
        match self {
            TextArray::VecStr(v) => v,
            _ => {
                proof {
                    assert(false);
                }
                Vec::new()
            },
        }
    }

    /// The texts as a slice, of owned strings or of string slices.
    pub fn to_slice_state(&self) -> (r: SliceState<'_>)
        ensures
            match r {
                SliceState::Owned(s) => strings_view(s@) == self@ && (self is SliceOwned
                    || self is VecOwned),
                SliceState::Borrowed(s) => strs_view(s@) == self@ && (self is SliceStr
                    || self is VecStr),
            },
    {
        match self {
            TextArray::SliceOwned(v) => SliceState::Owned(v),
            TextArray::SliceStr(v) => SliceState::Borrowed(v),
            TextArray::VecOwned(v) => SliceState::Owned(v.as_slice()),
            TextArray::VecStr(v) => SliceState::Borrowed(v.as_slice()),
        }
    }
}

/// A value of one column, tagged by its kind.
#[derive(Debug, PartialEq)]
pub enum ColumnData<'a> {
    Boolean(bool),
    Text(Text<'a>),
    Date(i32),
    Timestamp(i64),
    I64(i64),
    I32(i32),
    I16(i16),
    Option(Option<Box<ColumnData<'a>>>),
    TextArray(TextArray<'a>),
    Bytea(&'a [u8]),
}

impl<'a> ColumnData<'a> {
    /// Whether this is an absent nullable value.
    pub open spec fn is_null_spec(&self) -> bool {
        self matches ColumnData::Option(None)
    }

    /// Whether this is an absent nullable value.
    pub fn is_null(&self) -> (r: bool)
        ensures
            r == self.is_null_spec(),
    {
        match self {
            ColumnData::Option(None) => true,
            _ => false,
        }
    }

    /// The text that this value holds.
    pub fn unwrap_text(self) -> (r: Text<'a>)
        requires
            self is Text,
        ensures
            self == ColumnData::Text(r),
    {
        match self {
            ColumnData::Text(t) => t,
            _ => {
                proof {
                    assert(false);
                }
                Text::Borrowed("")
            },
        }
    }
}

/// Why a column value could not be turned into a value of a given type.
#[derive(Debug, Clone, PartialEq)]
pub enum FromDataError {
    ExpectedType(&'static str),
    Custom(&'static str),
    CustomString(String),
}

} // verus!
