use vstd::prelude::*;

verus! {

broadcast use vstd::std_specs::vec::axiom_vec_index_decreases;

/// The neutral document value: the format-agnostic tree every parser
/// produces and every serializer consumes. Mappings keep insertion order.
#[derive(Debug, PartialEq, Eq)]
pub enum Doc {
    Null,
    Bool(bool),
    Int(i64),
    Str(String),
    Array(Vec<Doc>),
    Table(Vec<(String, Doc)>),
}

/// Whether no null occurs anywhere in `v`: TOML cannot represent an explicit
/// null value.
pub open spec fn no_null(v: Doc) -> bool
    decreases v,
{
    match v {
        Doc::Null => false,
        Doc::Bool(_) => true,
        Doc::Int(_) => true,
        Doc::Str(_) => true,
        Doc::Array(items) => forall|i: int| 0 <= i < items.len() ==> no_null(#[trigger] items[i]),
        Doc::Table(entries) => forall|i: int|
            0 <= i < entries.len() ==> no_null(#[trigger] entries[i].1),
    }
}

/// Whether `v` can stand as a TOML document: the root must be a mapping, and
/// no null may occur anywhere in the tree.
pub open spec fn toml_representable(v: Doc) -> bool {
    v is Table && no_null(v)
}

} // verus!
