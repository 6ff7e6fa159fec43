//! Identifiers of requests and progress reports.
use vstd::prelude::*;
use vstd::std_specs::cmp::PartialEqSpecImpl;

use crate::key_map::MapKey;

verus! {

/// A JSON-RPC identifier: a number or a string.
#[derive(Debug)]
pub enum NumberOrString {
    Number(u32),
    String(String),
}

/// What an identifier stands for: two identifiers are the same when their
/// views are equal.
pub enum NumberOrStringView {
    Number(u32),
    String(Seq<char>),
}

impl View for NumberOrString {
    type V = NumberOrStringView;

    open spec fn view(&self) -> NumberOrStringView {
        match self {
            NumberOrString::Number(n) => NumberOrStringView::Number(*n),
            NumberOrString::String(s) => NumberOrStringView::String(s@),
        }
    }
}

impl MapKey for NumberOrString {
    fn same_key(&self, other: &Self) -> (r: bool) {
        match (self, other) {
            (NumberOrString::Number(a), NumberOrString::Number(b)) => *a == *b,
            (NumberOrString::String(a), NumberOrString::String(b)) => *a == *b,
            _ => false,
        }
    }
}

impl Clone for NumberOrString {
    fn clone(&self) -> (r: Self)
        ensures
            r == *self,
    {
        match self {
            NumberOrString::Number(n) => NumberOrString::Number(*n),
            NumberOrString::String(s) => NumberOrString::String(s.clone()),
        }
    }
}

impl PartialEq for NumberOrString {
    fn eq(&self, other: &Self) -> (r: bool) {
        self.same_key(other)
    }
}

impl Eq for NumberOrString {
}

impl PartialEqSpecImpl for NumberOrString {
    open spec fn obeys_eq_spec() -> bool {
        true
    }

    open spec fn eq_spec(&self, other: &NumberOrString) -> bool {
        self@ == other@
    }
}

/// The identifier of a request.
pub type RequestId = NumberOrString;

/// The token by which progress reports name the request they are about.
#[derive(Debug)]
pub struct ProgressToken(pub NumberOrString);

} // verus!
