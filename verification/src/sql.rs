//! Parameterized statements as plain values: a text with `?` placeholders and
//! the values bound to them, in order.

use vstd::prelude::*;
use vstd::string::StringExecFns;

verus! {

/// One bound value of a statement.
#[derive(Debug, Clone, PartialEq, Eq)]
pub enum SqlValue {
    /// A signed integer.
    Int(i64),
    /// A text.
    Text(String),
    /// An instant, in seconds since the Unix epoch.
    Instant(i64),
}

/// The mathematical value of a [`SqlValue`].
pub enum SqlValueView {
    Int(i64),
    Text(Seq<char>),
    Instant(i64),
}

impl View for SqlValue {
    type V = SqlValueView;

    open spec fn view(&self) -> SqlValueView {
        match self {
            SqlValue::Int(n) => SqlValueView::Int(*n),
            SqlValue::Text(t) => SqlValueView::Text(t@),
            SqlValue::Instant(t) => SqlValueView::Instant(*t),
        }
    }
}

impl DeepView for SqlValue {
    type V = SqlValueView;

    open spec fn deep_view(&self) -> SqlValueView {
        self.view()
    }
}

/// A statement ready to be prepared and run.
#[derive(Debug, Clone, PartialEq, Eq)]
pub struct Statement {
    pub text: String,
    pub params: Vec<SqlValue>,
}

/// The mathematical value of a [`Statement`].
pub struct StatementView {
    pub text: Seq<char>,
    pub params: Seq<SqlValueView>,
}

impl View for Statement {
    type V = StatementView;

    open spec fn view(&self) -> StatementView {
        StatementView { text: self.text@, params: self.params.deep_view() }
    }
}

/// The texts of `parts`, with `separator` between each two neighbours.
pub open spec fn joined(parts: Seq<Seq<char>>, separator: Seq<char>) -> Seq<char>
    decreases parts.len(),
{
    if parts.len() == 0 {
        Seq::empty()
    } else if parts.len() == 1 {
        parts[0]
    } else {
        joined(parts.drop_last(), separator) + separator + parts.last()
    }
}

/// The views of a vector of string slices.
pub open spec fn slices_view(parts: Seq<&str>) -> Seq<Seq<char>> {
    Seq::new(parts.len(), |i: int| parts[i]@)
}

/// Joins `parts` with `separator` between each two neighbours.
pub fn join(parts: &Vec<&str>, separator: &str) -> (out: String)
    ensures
        out@ == joined(slices_view(parts@), separator@),
{
    let mut out = String::new();
    let mut i: usize = 0;
    let ghost all = slices_view(parts@);
    while i < parts.len()
        invariant
            i <= parts.len(),
            all == slices_view(parts@),
            out@ == joined(all.take(i as int), separator@),
        decreases parts.len() - i,
    {
        proof {
            assert(all.take(i + 1).drop_last() =~= all.take(i as int));
        }
        if i > 0 {
            out.append(separator);
        }
        out.append(parts[i]);
        i += 1;
    }
    assert(all.take(parts.len() as int) =~= all);
    out
}

/// Appends `value` to `params`.
pub fn push_value(params: &mut Vec<SqlValue>, value: SqlValue)
    ensures
        final(params).deep_view() == old(params).deep_view().push(value@),
{
    params.push(value);
}

} // verus!
