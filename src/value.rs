use vstd::prelude::*;

verus! {

/// One scalar of the decoded wire data. `Unsupported` carries the name of a
/// wire kind that has no native counterpart (a 256-bit integer, for one).
#[derive(Clone, Debug, PartialEq)]
pub enum Primitive {
    Bool(bool),
    Char(char),
    Str(String),
    U128(u128),
    I128(i128),
    Unsupported(String),
}

/// A group of fields: all named or all positional, never mixed.
#[derive(Debug, PartialEq)]
pub enum Composite {
    Named(Vec<(String, TaggedValue)>),
    Unnamed(Vec<TaggedValue>),
}

/// The self-describing value that the chain-side decoder hands over.
#[derive(Debug, PartialEq)]
pub enum TaggedValue {
    Composite(Composite),
    Variant(String, Composite),
    Primitive(Primitive),
    BitSequence(Vec<bool>),
}

} // verus!
