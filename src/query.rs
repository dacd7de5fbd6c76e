use vstd::prelude::*;
use crate::error::BridgeError;
use crate::marshal::{marshal, marshal_indexed, marshal_items, marshal_list, marshal_named, marshal_value, reports};
use crate::native::{items_view, lemma_view_dict, Native, NativeData};
use crate::value::{Composite, TaggedValue};

verus! {

/// One item of a storage scan, converted: the raw key, the decoded key parts
/// and the decoded value.
#[derive(Debug, PartialEq)]
pub struct StorageEntry {
    pub key_bytes: Vec<u8>,
    pub keys: Vec<NativeData>,
    pub value: NativeData,
}

/// One decoded event as the chain reports it.
#[derive(Debug, PartialEq)]
pub struct EventRecord {
    pub pallet: String,
    pub variant: String,
    pub fields: Composite,
}

/// One event, converted.
#[derive(Debug, PartialEq)]
pub struct NativeEvent {
    pub pallet: String,
    pub variant: String,
    pub fields: NativeData,
}

/// The converted key parts and value of a scanned item, or the first
/// unsupported primitive kind met, key parts before value.
pub open spec fn entry_outcome(keys: Vec<TaggedValue>, value: TaggedValue) -> Result<(Seq<Native>, Native), Seq<char>> {
    match marshal_items(keys, keys.len() as nat) {
        Err(k) => Err(k),
        Ok(natives) => match marshal_value(value) {
            Err(k) => Err(k),
            Ok(v) => Ok((natives, v)),
        },
    }
}

/// The converted pallet, variant and fields of the first `n` events, or the
/// first unsupported primitive kind met.
pub open spec fn events_outcome(events: Seq<EventRecord>, n: nat) -> Result<Seq<(Seq<char>, Seq<char>, Native)>, Seq<char>>
    decreases n,
{
    if n == 0 || n > events.len() {
        Ok(Seq::empty())
    } else {
        match events_outcome(events, (n - 1) as nat) {
            Err(k) => Err(k),
            Ok(done) => match marshal_value(TaggedValue::Composite(events[n - 1].fields)) {
                Err(k) => Err(k),
                Ok(f) => Ok(done.push((events[n - 1].pallet@, events[n - 1].variant@, f))),
            },
        }
    }
}

/// The view of converted events.
pub open spec fn events_view(events: Seq<NativeEvent>) -> Seq<(Seq<char>, Seq<char>, Native)> {
    Seq::new(events.len(), |i: int| (events[i].pallet@, events[i].variant@, events[i].fields.view()))
}

/// Converts a group of fields to a native mapping: named fields by name,
/// positional ones by their decimal index.
pub fn marshal_composite(c: &Composite) -> (r: Result<NativeData, BridgeError>)
    ensures
        reports(r, marshal_value(TaggedValue::Composite(*c)), |d: NativeData| d.view()),
{
    let converted = match c {
        Composite::Named(fields) => marshal_named(fields),
        Composite::Unnamed(items) => marshal_indexed(items),
    };
    match converted {
        Ok(entries) => {
            proof { lemma_view_dict(entries); }
            Ok(NativeData::Dict(entries))
        },
        Err(e) => Err(e),
    }
}

/// The answer to a storage lookup: an absent entry is `QueryNotFound`, a
/// present one is converted.
pub fn resolve_storage(fetched: Option<TaggedValue>) -> (r: Result<NativeData, BridgeError>)
    ensures
        fetched is None ==> r == Err::<NativeData, BridgeError>(BridgeError::QueryNotFound),
        fetched matches Some(v) ==> reports(r, marshal_value(v), |d: NativeData| d.view()),
{
    match fetched {
        None => Err(BridgeError::QueryNotFound),
        Some(v) => marshal(&v),
    }
}

/// The answer to a lookup whose decoding may have failed: the failure is
/// passed on, a decoded value is converted.
pub fn resolve_value(decoded: Result<TaggedValue, BridgeError>) -> (r: Result<NativeData, BridgeError>)
    ensures
        decoded matches Err(e) ==> r == Err::<NativeData, BridgeError>(e),
        decoded matches Ok(v) ==> reports(r, marshal_value(v), |d: NativeData| d.view()),
{
    match decoded {
        Err(e) => Err(e),
        Ok(v) => marshal(&v),
    }
}

/// Converts one scanned item. Fails as a whole, naming the kind, when a key
/// part or the value holds an unsupported primitive.
pub fn marshal_entry(key_bytes: Vec<u8>, keys: &Vec<TaggedValue>, value: &TaggedValue) -> (r: Result<StorageEntry, BridgeError>)
    ensures
        reports(r, match entry_outcome(*keys, *value) {
            Ok((natives, v)) => Ok(Native::List(natives.push(v))),
            Err(k) => Err(k),
        }, |e: StorageEntry| Native::List(items_view(e.keys@).push(e.value.view()))),
        r matches Ok(e) ==> e.key_bytes@ == key_bytes@,
{
    let converted_keys = match marshal_list(keys) {
        Ok(natives) => natives,
        Err(e) => return Err(e),
    };
    let converted_value = match marshal(value) {
        Ok(v) => v,
        Err(e) => return Err(e),
    };
    Ok(StorageEntry { key_bytes, keys: converted_keys, value: converted_value })
}

/// Converts a list of events, in order. Fails as a whole, naming the kind,
/// when any event's fields hold an unsupported primitive.
pub fn marshal_events(events: &Vec<EventRecord>) -> (r: Result<Vec<NativeEvent>, BridgeError>)
    ensures
        match (r, events_outcome(events@, events.len() as nat)) {
            (Ok(out), Ok(expected)) => events_view(out@) == expected,
            (Err(BridgeError::UnsupportedPrimitive(k)), Err(kind)) => k@ == kind,
            _ => false,
        },
{
    let mut out: Vec<NativeEvent> = Vec::new();
    let mut i: usize = 0;
    assert(events_view(out@) =~= Seq::empty());
    while i < events.len()
        invariant
            i <= events.len(),
            out@.len() == i,
            events_outcome(events@, i as nat) == Ok::<_, Seq<char>>(events_view(out@)),
        decreases events.len() - i,
    {
        let event = &events[i];
        match marshal_composite(&event.fields) {
            Err(e) => {
                proof {
                    lemma_events_error_stays(events@, (i + 1) as nat, events.len() as nat);
                }
                return Err(e);
            },
            Ok(fields) => {
                let ghost before = out@;
                let converted = NativeEvent { pallet: event.pallet.clone(), variant: event.variant.clone(), fields };
                out.push(converted);
                assert(events_view(out@) =~= events_view(before).push((event.pallet@, event.variant@, fields.view())));
            },
        }
        i += 1;
    }
    Ok(out)
}

proof fn lemma_events_error_stays(events: Seq<EventRecord>, n: nat, m: nat)
    requires
        n <= m <= events.len(),
        events_outcome(events, n) is Err,
    ensures
        events_outcome(events, m) == events_outcome(events, n),
    decreases m - n,
{
    if n < m {
        lemma_events_error_stays(events, n, (m - 1) as nat);
    }
}

} // verus!
