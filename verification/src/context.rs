//! The render context: the named values a template may read.

use vstd::prelude::*;

verus! {

/// A value bound to a name in a render context.
pub enum Datum<'a> {
    /// A boolean, such as the generation-prompt flag.
    Flag(bool),
    /// A string, such as a boundary token.
    Text(&'a str),
    /// A list of records, each a list of named strings, such as the conversation.
    Records(Vec<Vec<(&'a str, &'a str)>>),
}

/// A record as mathematics: its fields, name first, in the order they were given.
pub type Record = Seq<(Seq<char>, Seq<char>)>;

/// A context value as mathematics.
pub ghost enum DatumView {
    Flag(bool),
    Text(Seq<char>),
    Records(Seq<Record>),
}

/// A render context as mathematics: the bindings, name first, in the order they were given.
pub type ContextView = Seq<(Seq<char>, DatumView)>;

impl<'a> DeepView for Datum<'a> {
    type V = DatumView;

    open spec fn deep_view(&self) -> DatumView {
        match *self {
            Datum::Flag(flag) => DatumView::Flag(flag),
            Datum::Text(text) => DatumView::Text(text@),
            Datum::Records(records) => DatumView::Records(records.deep_view()),
        }
    }
}

} // verus!
