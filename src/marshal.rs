use vstd::prelude::*;
use crate::error::BridgeError;
use crate::native::{entries_view, items_view, lemma_view_dict, lemma_view_list, Native, NativeData};
use crate::value::{Composite, Primitive, TaggedValue};

verus! {

/// The character of one decimal digit.
pub open spec fn digit_char(d: nat) -> char {
    if d == 0 { '0' } else if d == 1 { '1' } else if d == 2 { '2' } else if d == 3 { '3' }
    else if d == 4 { '4' } else if d == 5 { '5' } else if d == 6 { '6' } else if d == 7 { '7' }
    else if d == 8 { '8' } else { '9' }
}

/// The decimal rendering of a natural number, without sign or leading zeros.
pub open spec fn decimal(n: nat) -> Seq<char>
    decreases n,
{
    if n < 10 {
        seq![digit_char(n)]
    } else {
        decimal(n / 10).push(digit_char(n % 10))
    }
}

/// The native form of one primitive, or the name of its kind where it has none.
pub open spec fn marshal_primitive(p: Primitive) -> Result<Native, Seq<char>> {
    match p {
        Primitive::Bool(b) => Ok(Native::Bool(b)),
        Primitive::Char(c) => Ok(Native::Char(c)),
        Primitive::Str(s) => Ok(Native::Text(s@)),
        Primitive::U128(u) => Ok(Native::Unsigned(u)),
        Primitive::I128(i) => Ok(Native::Signed(i)),
        Primitive::Unsupported(kind) => Err(kind@),
    }
}

/// The native form of a tagged value, or the kind of the first unsupported
/// primitive met in a depth-first, left-to-right walk.
pub open spec fn marshal_value(v: TaggedValue) -> Result<Native, Seq<char>>
    decreases v, 0nat,
{
    match v {
        TaggedValue::Composite(Composite::Named(fields)) => match marshal_fields(fields, fields.len() as nat) {
            Ok(entries) => Ok(Native::Dict(entries)),
            Err(k) => Err(k),
        },
        TaggedValue::Composite(Composite::Unnamed(items)) => match marshal_items(items, items.len() as nat) {
            Ok(natives) => Ok(Native::Dict(indexed(natives))),
            Err(k) => Err(k),
        },
        TaggedValue::Variant(name, Composite::Named(fields)) => match marshal_fields(fields, fields.len() as nat) {
            Ok(entries) => Ok(variant_dict(name@, Native::Dict(entries))),
            Err(k) => Err(k),
        },
        TaggedValue::Variant(name, Composite::Unnamed(items)) => match marshal_items(items, items.len() as nat) {
            Ok(natives) => Ok(variant_dict(name@, Native::List(natives))),
            Err(k) => Err(k),
        },
        TaggedValue::Primitive(p) => marshal_primitive(p),
        TaggedValue::BitSequence(bits) => Ok(Native::List(bit_list(bits@))),
    }
}

/// The native forms of the first `n` named fields, in declaration order.
pub open spec fn marshal_fields(fields: Vec<(String, TaggedValue)>, n: nat) -> Result<Seq<(Seq<char>, Native)>, Seq<char>>
    decreases fields, n,
{
    if n == 0 || n > fields.len() {
        Ok(Seq::empty())
    } else {
        match marshal_fields(fields, (n - 1) as nat) {
            Err(k) => Err(k),
            Ok(done) => match marshal_value(fields[n - 1].1) {
                Err(k) => Err(k),
                Ok(last) => Ok(done.push((fields[n - 1].0@, last))),
            },
        }
    }
}

/// The native forms of the first `n` positional items, in order.
pub open spec fn marshal_items(items: Vec<TaggedValue>, n: nat) -> Result<Seq<Native>, Seq<char>>
    decreases items, n,
{
    if n == 0 || n > items.len() {
        Ok(Seq::empty())
    } else {
        match marshal_items(items, (n - 1) as nat) {
            Err(k) => Err(k),
            Ok(done) => match marshal_value(items[n - 1]) {
                Err(k) => Err(k),
                Ok(last) => Ok(done.push(last)),
            },
        }
    }
}

/// Positional entries keyed by the decimal rendering of their 0-based index.
pub open spec fn indexed(natives: Seq<Native>) -> Seq<(Seq<char>, Native)> {
    Seq::new(natives.len(), |i: int| (decimal(i as nat), natives[i]))
}

/// The two-entry mapping that stands for a variant.
pub open spec fn variant_dict(name: Seq<char>, values: Native) -> Native {
    Native::Dict(seq![("variant_name"@, Native::Text(name)), ("values"@, values)])
}

/// One native boolean per bit, in order.
pub open spec fn bit_list(bits: Seq<bool>) -> Seq<Native> {
    Seq::new(bits.len(), |i: int| Native::Bool(bits[i]))
}


/// `r` is what marshalling reports for the outcome `m`: the native data on
/// success, the unsupported kind by name on failure.
pub open spec fn reports<T>(r: Result<T, BridgeError>, m: Result<Native, Seq<char>>, view: spec_fn(T) -> Native) -> bool {
    match (r, m) {
        (Ok(d), Ok(n)) => view(d) == n,
        (Err(BridgeError::UnsupportedPrimitive(k)), Err(kind)) => k@ == kind,
        _ => false,
    }
}

/// Relies on the `Display` impl of `usize`, through `ToString`: base ten,
/// without sign or padding.
#[verifier::external_body]
fn index_key(i: usize) -> (r: String)
    ensures
        r@ == decimal(i as nat),
{
    i.to_string()
}

proof fn lemma_fields_error_stays(fields: Vec<(String, TaggedValue)>, n: nat, m: nat)
    requires
        n <= m <= fields.len(),
        marshal_fields(fields, n) is Err,
    ensures
        marshal_fields(fields, m) == marshal_fields(fields, n),
    decreases m - n,
{
    if n < m {
        lemma_fields_error_stays(fields, n, (m - 1) as nat);
    }
}

proof fn lemma_items_error_stays(items: Vec<TaggedValue>, n: nat, m: nat)
    requires
        n <= m <= items.len(),
        marshal_items(items, n) is Err,
    ensures
        marshal_items(items, m) == marshal_items(items, n),
    decreases m - n,
{
    if n < m {
        lemma_items_error_stays(items, n, (m - 1) as nat);
    }
}

/// Converts a primitive to its native scalar.
pub fn marshal_scalar(p: &Primitive) -> (r: Result<NativeData, BridgeError>)
    ensures
        reports(r, marshal_primitive(*p), |d: NativeData| d.view()),
{
    match p {
        Primitive::Bool(b) => Ok(NativeData::Bool(*b)),
        Primitive::Char(c) => Ok(NativeData::Char(*c)),
        Primitive::Str(s) => Ok(NativeData::Str(s.clone())),
        Primitive::U128(u) => Ok(NativeData::U128(*u)),
        Primitive::I128(i) => Ok(NativeData::I128(*i)),
        Primitive::Unsupported(kind) => Err(BridgeError::UnsupportedPrimitive(kind.clone())),
    }
}

/// Converts named fields to native entries, in declaration order.
pub(crate) fn marshal_named(fields: &Vec<(String, TaggedValue)>) -> (r: Result<Vec<(String, NativeData)>, BridgeError>)
    ensures
        reports(r, match marshal_fields(*fields, fields.len() as nat) {
            Ok(entries) => Ok(Native::Dict(entries)),
            Err(k) => Err(k),
        }, |d: Vec<(String, NativeData)>| Native::Dict(entries_view(d@))),
    decreases fields, 1nat,
{
    let mut out: Vec<(String, NativeData)> = Vec::new();
    let mut i: usize = 0;
    assert(entries_view(out@) =~= Seq::empty());
    assert(indexed(Seq::empty()) =~= Seq::empty());
    while i < fields.len()
        invariant
            i <= fields.len(),
            out@.len() == i,
            marshal_fields(*fields, i as nat) == Ok::<_, Seq<char>>(entries_view(out@)),
        decreases fields.len() - i,
    {
        let field = &fields[i];
        proof {
            assert(decreases_to!(*fields => fields[i as int]));
        }
        match marshal(&field.1) {
            Err(e) => {
                proof {
                    lemma_fields_error_stays(*fields, (i + 1) as nat, fields.len() as nat);
                }
                return Err(e);
            },
            Ok(n) => {
                let ghost before = out@;
                out.push((field.0.clone(), n));
                assert(entries_view(out@) =~= entries_view(before).push((field.0@, n.view())));
            },
        }
        i += 1;
    }
    Ok(out)
}

/// Converts positional items to native items, in order.
pub(crate) fn marshal_list(items: &Vec<TaggedValue>) -> (r: Result<Vec<NativeData>, BridgeError>)
    ensures
        reports(r, match marshal_items(*items, items.len() as nat) {
            Ok(natives) => Ok(Native::List(natives)),
            Err(k) => Err(k),
        }, |d: Vec<NativeData>| Native::List(items_view(d@))),
    decreases items, 1nat,
{
    let mut out: Vec<NativeData> = Vec::new();
    let mut i: usize = 0;
    assert(items_view(out@) =~= Seq::empty());
    while i < items.len()
        invariant
            i <= items.len(),
            out@.len() == i,
            marshal_items(*items, i as nat) == Ok::<_, Seq<char>>(items_view(out@)),
        decreases items.len() - i,
    {
        proof {
            assert(decreases_to!(*items => items[i as int]));
        }
        match marshal(&items[i]) {
            Err(e) => {
                proof {
                    lemma_items_error_stays(*items, (i + 1) as nat, items.len() as nat);
                }
                return Err(e);
            },
            Ok(n) => {
                let ghost before = out@;
                out.push(n);
                assert(items_view(out@) =~= items_view(before).push(n.view()));
            },
        }
        i += 1;
    }
    Ok(out)
}

/// Converts positional items to native entries keyed by their decimal index.
pub(crate) fn marshal_indexed(items: &Vec<TaggedValue>) -> (r: Result<Vec<(String, NativeData)>, BridgeError>)
    ensures
        reports(r, match marshal_items(*items, items.len() as nat) {
            Ok(natives) => Ok(Native::Dict(indexed(natives))),
            Err(k) => Err(k),
        }, |d: Vec<(String, NativeData)>| Native::Dict(entries_view(d@))),
    decreases items, 1nat,
{
    let mut out: Vec<(String, NativeData)> = Vec::new();
    let mut i: usize = 0;
    assert(entries_view(out@) =~= Seq::empty());
    assert(indexed(Seq::empty()) =~= Seq::empty());
    while i < items.len()
        invariant
            i <= items.len(),
            out@.len() == i,
            marshal_items(*items, i as nat) matches Ok(done) && entries_view(out@) == indexed(done),
        decreases items.len() - i,
    {
        proof {
            assert(decreases_to!(*items => items[i as int]));
        }
        match marshal(&items[i]) {
            Err(e) => {
                proof {
                    lemma_items_error_stays(*items, (i + 1) as nat, items.len() as nat);
                }
                return Err(e);
            },
            Ok(n) => {
                let ghost before = out@;
                let ghost done = marshal_items(*items, i as nat)->Ok_0;
                let key = index_key(i);
                out.push((key, n));
                assert(entries_view(out@) =~= entries_view(before).push((decimal(i as nat), n.view())));
                assert(indexed(done.push(n.view())) =~= indexed(done).push((decimal(i as nat), n.view())));
            },
        }
        i += 1;
    }
    Ok(out)
}

/// Converts bits to native booleans, in order.
fn marshal_bits(bits: &Vec<bool>) -> (r: Vec<NativeData>)
    ensures
        items_view(r@) == bit_list(bits@),
{
    let mut out: Vec<NativeData> = Vec::new();
    let mut i: usize = 0;
    assert(items_view(out@) =~= Seq::empty());
    while i < bits.len()
        invariant
            i <= bits.len(),
            out@.len() == i,
            items_view(out@) == bit_list(bits@.subrange(0, i as int)),
        decreases bits.len() - i,
    {
        let ghost before = out@;
        out.push(NativeData::Bool(bits[i]));
        assert(items_view(out@) =~= items_view(before).push(Native::Bool(bits@[i as int])));
        assert(bit_list(bits@.subrange(0, i + 1)) =~= bit_list(bits@.subrange(0, i as int)).push(Native::Bool(bits@[i as int])));
        i += 1;
    }
    assert(bits@.subrange(0, bits.len() as int) =~= bits@);
    out
}

/// Converts a tagged value to host-native data. Fails only on a primitive
/// kind without a native form, and then names the first such kind met.
pub fn marshal(v: &TaggedValue) -> (r: Result<NativeData, BridgeError>)
    ensures
        reports(r, marshal_value(*v), |d: NativeData| d.view()),
    decreases v, 0nat,
{
    match v {
        TaggedValue::Composite(Composite::Named(fields)) => match marshal_named(fields) {
            Ok(entries) => {
                proof { lemma_view_dict(entries); }
                Ok(NativeData::Dict(entries))
            },
            Err(e) => Err(e),
        },
        TaggedValue::Composite(Composite::Unnamed(items)) => match marshal_indexed(items) {
            Ok(entries) => {
                proof { lemma_view_dict(entries); }
                Ok(NativeData::Dict(entries))
            },
            Err(e) => Err(e),
        },
        TaggedValue::Variant(name, Composite::Named(fields)) => match marshal_named(fields) {
            Ok(entries) => {
                let values = NativeData::Dict(entries);
                proof { lemma_view_dict(entries); }
                Ok(variant_data(name, values))
            },
            Err(e) => Err(e),
        },
        TaggedValue::Variant(name, Composite::Unnamed(items)) => match marshal_list(items) {
            Ok(natives) => {
                let values = NativeData::List(natives);
                proof { lemma_view_list(natives); }
                Ok(variant_data(name, values))
            },
            Err(e) => Err(e),
        },
        TaggedValue::Primitive(p) => marshal_scalar(p),
        TaggedValue::BitSequence(bits) => {
            let natives = marshal_bits(bits);
            proof { lemma_view_list(natives); }
            Ok(NativeData::List(natives))
        },
    }
}

/// Builds the two-entry mapping of a variant from its name and converted payload.
fn variant_data(name: &String, values: NativeData) -> (r: NativeData)
    ensures
        r.view() == variant_dict(name@, values.view()),
{
    let ghost payload = values.view();
    let mut entries: Vec<(String, NativeData)> = Vec::new();
    entries.push(("variant_name".to_owned(), NativeData::Str(name.clone())));
    entries.push(("values".to_owned(), values));
    let r = NativeData::Dict(entries);
    proof {
        assert(entries_view(entries@) =~= seq![("variant_name"@, Native::Text(name@)), ("values"@, payload)]);
        lemma_view_dict(entries);
    }
    r
}

} // verus!
