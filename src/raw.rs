//! Untyped argument values as a test action writes them.
use vstd::prelude::*;

verus! {

/// A scalar, sequence or mapping value, before any type is known.
#[derive(Debug, PartialEq)]
pub enum RawValue {
    Str(String),
    Bool(bool),
    Int(i64),
    Array(Vec<RawValue>),
    Hash(Vec<(String, RawValue)>),
}

/// Whether every item of a sequence is a string.
pub open spec fn all_strings(items: Seq<RawValue>) -> bool {
    forall|k: int| 0 <= k < items.len() ==> #[trigger] items[k] is Str
}

/// The texts of a sequence whose items are all strings.
pub open spec fn string_items(items: Seq<RawValue>) -> Seq<Seq<char>> {
    items.map_values(|x: RawValue| x->Str_0@)
}

/// Whether no two entries share a key.
pub open spec fn distinct_keys(entries: Seq<(String, RawValue)>) -> bool {
    forall|i: int, j: int|
        0 <= i < entries.len() && 0 <= j < entries.len() && i != j ==> #[trigger] entries[i].0@
            != #[trigger] entries[j].0@
}

} // verus!
