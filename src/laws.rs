use vstd::prelude::*;
use crate::marshal::{marshal_fields, marshal_items, marshal_value};
use crate::value::{Composite, Primitive, TaggedValue};

verus! {

/// `p` is one of the primitive kinds that have a native form.
pub open spec fn closed_primitive(p: Primitive) -> bool {
    !(p is Unsupported)
}

/// Every primitive in `v` has a native form.
pub open spec fn closed_value(v: TaggedValue) -> bool
    decreases v, 0nat,
{
    match v {
        TaggedValue::Composite(Composite::Named(fields)) => closed_fields(fields, fields.len() as nat),
        TaggedValue::Composite(Composite::Unnamed(items)) => closed_items(items, items.len() as nat),
        TaggedValue::Variant(_, Composite::Named(fields)) => closed_fields(fields, fields.len() as nat),
        TaggedValue::Variant(_, Composite::Unnamed(items)) => closed_items(items, items.len() as nat),
        TaggedValue::Primitive(p) => closed_primitive(p),
        TaggedValue::BitSequence(_) => true,
    }
}

/// Every primitive in the first `n` named fields has a native form.
pub open spec fn closed_fields(fields: Vec<(String, TaggedValue)>, n: nat) -> bool
    decreases fields, n,
{
    if n == 0 || n > fields.len() {
        true
    } else {
        closed_fields(fields, (n - 1) as nat) && closed_value(fields[n - 1].1)
    }
}

/// Every primitive in the first `n` positional items has a native form.
pub open spec fn closed_items(items: Vec<TaggedValue>, n: nat) -> bool
    decreases items, n,
{
    if n == 0 || n > items.len() {
        true
    } else {
        closed_items(items, (n - 1) as nat) && closed_value(items[n - 1])
    }
}

/// Marshalling is total and deterministic on values built from the closed
/// primitive set: it succeeds, and structurally equal inputs give equal output.
pub proof fn lemma_marshal_total_deterministic(v: TaggedValue, w: TaggedValue)
    requires
        closed_value(v),
        v == w,
    ensures
        marshal_value(v) is Ok,
        marshal_value(v) == marshal_value(w),
{
    lemma_closed_value_ok(v);
}

proof fn lemma_closed_value_ok(v: TaggedValue)
    requires
        closed_value(v),
    ensures
        marshal_value(v) is Ok,
    decreases v, 0nat,
{
    match v {
        TaggedValue::Composite(Composite::Named(fields)) => lemma_closed_fields_ok(fields, fields.len() as nat),
        TaggedValue::Composite(Composite::Unnamed(items)) => lemma_closed_items_ok(items, items.len() as nat),
        TaggedValue::Variant(_, Composite::Named(fields)) => lemma_closed_fields_ok(fields, fields.len() as nat),
        TaggedValue::Variant(_, Composite::Unnamed(items)) => lemma_closed_items_ok(items, items.len() as nat),
        _ => {},
    }
}

proof fn lemma_closed_fields_ok(fields: Vec<(String, TaggedValue)>, n: nat)
    requires
        closed_fields(fields, n),
    ensures
        marshal_fields(fields, n) is Ok,
    decreases fields, n,
{
    if n > 0 && n <= fields.len() {
        lemma_closed_fields_ok(fields, (n - 1) as nat);
        assert(decreases_to!(fields => fields[n - 1]));
        lemma_closed_value_ok(fields[n - 1].1);
    }
}

proof fn lemma_closed_items_ok(items: Vec<TaggedValue>, n: nat)
    requires
        closed_items(items, n),
    ensures
        marshal_items(items, n) is Ok,
    decreases items, n,
{
    if n > 0 && n <= items.len() {
        lemma_closed_items_ok(items, (n - 1) as nat);
        assert(decreases_to!(items => items[n - 1]));
        lemma_closed_value_ok(items[n - 1]);
    }
}

} // verus!
