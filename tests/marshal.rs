use subxtpy::error::BridgeError;
use subxtpy::marshal::{marshal, marshal_scalar};
use subxtpy::native::NativeData;
use subxtpy::query::{marshal_composite, marshal_entry, marshal_events, resolve_storage, resolve_value, EventRecord};
use subxtpy::value::{Composite, Primitive, TaggedValue};

fn text(s: &str) -> String {
    s.to_string()
}

fn prim(p: Primitive) -> TaggedValue {
    TaggedValue::Primitive(p)
}

fn dict(entries: Vec<(&str, NativeData)>) -> NativeData {
    NativeData::Dict(entries.into_iter().map(|(k, v)| (text(k), v)).collect())
}

#[test]
fn named_composite_becomes_mapping() {
    let v = TaggedValue::Composite(Composite::Named(vec![
        (text("a"), prim(Primitive::Bool(true))),
        (text("b"), prim(Primitive::Str(text("x")))),
    ]));
    let expected = dict(vec![("a", NativeData::Bool(true)), ("b", NativeData::Str(text("x")))]);
    assert_eq!(marshal(&v), Ok(expected));
}

#[test]
fn positional_composite_becomes_string_keyed_mapping() {
    let v = TaggedValue::Composite(Composite::Unnamed(vec![prim(Primitive::Bool(false)), prim(Primitive::Bool(true))]));
    let expected = dict(vec![("0", NativeData::Bool(false)), ("1", NativeData::Bool(true))]);
    assert_eq!(marshal(&v), Ok(expected));
}

#[test]
fn positional_keys_past_nine_are_decimal() {
    let items: Vec<TaggedValue> = (0..12u128).map(|i| prim(Primitive::U128(i))).collect();
    let r = marshal(&TaggedValue::Composite(Composite::Unnamed(items))).unwrap();
    match r {
        NativeData::Dict(entries) => {
            assert_eq!(entries.len(), 12);
            assert_eq!(entries[10], (text("10"), NativeData::U128(10)));
            assert_eq!(entries[11], (text("11"), NativeData::U128(11)));
        },
        _ => panic!("not a mapping"),
    }
}

#[test]
fn variant_with_positional_payload() {
    let v = TaggedValue::Variant(text("Some"), Composite::Unnamed(vec![prim(Primitive::U128(7))]));
    let expected = dict(vec![
        ("variant_name", NativeData::Str(text("Some"))),
        ("values", NativeData::List(vec![NativeData::U128(7)])),
    ]);
    assert_eq!(marshal(&v), Ok(expected));
}

#[test]
fn variant_with_named_payload() {
    let v = TaggedValue::Variant(text("Transfer"), Composite::Named(vec![(text("amount"), prim(Primitive::I128(-3)))]));
    let expected = dict(vec![
        ("variant_name", NativeData::Str(text("Transfer"))),
        ("values", dict(vec![("amount", NativeData::I128(-3))])),
    ]);
    assert_eq!(marshal(&v), Ok(expected));
}

#[test]
fn variant_without_fields() {
    let v = TaggedValue::Variant(text("None"), Composite::Unnamed(vec![]));
    let expected = dict(vec![("variant_name", NativeData::Str(text("None"))), ("values", NativeData::List(vec![]))]);
    assert_eq!(marshal(&v), Ok(expected));
}

#[test]
fn bit_sequence_keeps_order() {
    let v = TaggedValue::BitSequence(vec![true, false, true]);
    let expected = NativeData::List(vec![NativeData::Bool(true), NativeData::Bool(false), NativeData::Bool(true)]);
    assert_eq!(marshal(&v), Ok(expected));
}

#[test]
fn scalars_map_one_to_one() {
    assert_eq!(marshal_scalar(&Primitive::Char('z')), Ok(NativeData::Char('z')));
    assert_eq!(marshal_scalar(&Primitive::U128(u128::MAX)), Ok(NativeData::U128(u128::MAX)));
    assert_eq!(marshal_scalar(&Primitive::I128(i128::MIN)), Ok(NativeData::I128(i128::MIN)));
    assert_eq!(marshal_scalar(&Primitive::Str(text(""))), Ok(NativeData::Str(text(""))));
}

#[test]
fn unsupported_kind_is_named() {
    let v = TaggedValue::Composite(Composite::Named(vec![
        (text("ok"), prim(Primitive::Bool(true))),
        (text("big"), prim(Primitive::Unsupported(text("U256")))),
        (text("later"), prim(Primitive::Unsupported(text("I256")))),
    ]));
    assert_eq!(marshal(&v), Err(BridgeError::UnsupportedPrimitive(text("U256"))));
}

#[test]
fn nested_failure_aborts_whole_value() {
    let inner = TaggedValue::Variant(text("Wrap"), Composite::Unnamed(vec![prim(Primitive::Unsupported(text("I256")))]));
    let v = TaggedValue::Composite(Composite::Unnamed(vec![prim(Primitive::Bool(true)), inner]));
    assert_eq!(marshal(&v), Err(BridgeError::UnsupportedPrimitive(text("I256"))));
}

#[test]
fn repeated_marshalling_is_equal() {
    let build = || {
        TaggedValue::Composite(Composite::Named(vec![
            (text("n"), TaggedValue::Composite(Composite::Unnamed(vec![prim(Primitive::Char('q'))]))),
            (text("bits"), TaggedValue::BitSequence(vec![false])),
        ]))
    };
    let first = marshal(&build());
    let second = marshal(&build());
    assert!(first.is_ok());
    assert_eq!(first, second);
}

#[test]
fn empty_composites() {
    assert_eq!(marshal(&TaggedValue::Composite(Composite::Named(vec![]))), Ok(NativeData::Dict(vec![])));
    assert_eq!(marshal_composite(&Composite::Unnamed(vec![])), Ok(NativeData::Dict(vec![])));
}

#[test]
fn missing_storage_entry_is_not_found() {
    assert_eq!(resolve_storage(None), Err(BridgeError::QueryNotFound));
    assert_eq!(resolve_storage(Some(prim(Primitive::U128(5)))), Ok(NativeData::U128(5)));
}

#[test]
fn decode_failure_is_passed_on() {
    let failed = resolve_value(Err(BridgeError::Decode(text("bad bytes"))));
    assert_eq!(failed, Err(BridgeError::Decode(text("bad bytes"))));
    let unsupported = resolve_value(Ok(prim(Primitive::Unsupported(text("U256")))));
    assert_eq!(unsupported, Err(BridgeError::UnsupportedPrimitive(text("U256"))));
}

#[test]
fn scanned_entry_is_converted() {
    let keys = vec![prim(Primitive::Str(text("alice")))];
    let value = TaggedValue::Composite(Composite::Named(vec![(text("free"), prim(Primitive::U128(100)))]));
    let entry = marshal_entry(vec![1, 2, 3], &keys, &value).unwrap();
    assert_eq!(entry.key_bytes, vec![1, 2, 3]);
    assert_eq!(entry.keys, vec![NativeData::Str(text("alice"))]);
    assert_eq!(entry.value, dict(vec![("free", NativeData::U128(100))]));
    let bad_keys = vec![prim(Primitive::Unsupported(text("U256")))];
    assert_eq!(marshal_entry(vec![], &bad_keys, &value).err(), Some(BridgeError::UnsupportedPrimitive(text("U256"))));
}

#[test]
fn events_are_converted_in_order() {
    let events = vec![
        EventRecord { pallet: text("System"), variant: text("ExtrinsicSuccess"), fields: Composite::Named(vec![]) },
        EventRecord {
            pallet: text("Balances"),
            variant: text("Deposit"),
            fields: Composite::Unnamed(vec![prim(Primitive::U128(9))]),
        },
    ];
    let out = marshal_events(&events).unwrap();
    assert_eq!(out.len(), 2);
    assert_eq!(out[0].pallet, text("System"));
    assert_eq!(out[0].fields, NativeData::Dict(vec![]));
    assert_eq!(out[1].variant, text("Deposit"));
    assert_eq!(out[1].fields, dict(vec![("0", NativeData::U128(9))]));
}
