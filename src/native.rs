use vstd::prelude::*;

verus! {

/// The mathematical form of host-native data: scalars, ordered sequences and
/// ordered string-keyed mappings.
pub enum Native {
    Bool(bool),
    Char(char),
    Text(Seq<char>),
    Unsigned(u128),
    Signed(i128),
    List(Seq<Native>),
    Dict(Seq<(Seq<char>, Native)>),
}

/// Host-native data as handed to the embedding environment.
#[derive(Debug, PartialEq)]
pub enum NativeData {
    Bool(bool),
    Char(char),
    Str(String),
    U128(u128),
    I128(i128),
    List(Vec<NativeData>),
    Dict(Vec<(String, NativeData)>),
}

impl NativeData {
    pub open spec fn view(self) -> Native
        decreases self,
    {
        match self {
            NativeData::Bool(b) => Native::Bool(b),
            NativeData::Char(c) => Native::Char(c),
            NativeData::Str(s) => Native::Text(s@),
            NativeData::U128(u) => Native::Unsigned(u),
            NativeData::I128(i) => Native::Signed(i),
            NativeData::List(items) => Native::List(
                Seq::new(items.len() as nat, |i: int| if 0 <= i < items.len() { items[i].view() } else { Native::Bool(false) }),
            ),
            NativeData::Dict(entries) => Native::Dict(
                Seq::new(entries.len() as nat, |i: int| if 0 <= i < entries.len() { (entries[i].0@, entries[i].1.view()) } else { (Seq::empty(), Native::Bool(false)) }),
            ),
        }
    }
}

/// The views of a sequence of native entries.
pub open spec fn entries_view(entries: Seq<(String, NativeData)>) -> Seq<(Seq<char>, Native)> {
    Seq::new(entries.len(), |i: int| (entries[i].0@, entries[i].1.view()))
}

/// The views of a sequence of native items.
pub open spec fn items_view(items: Seq<NativeData>) -> Seq<Native> {
    Seq::new(items.len(), |i: int| items[i].view())
}

/// The view of a mapping is the views of its entries.
pub proof fn lemma_view_dict(entries: Vec<(String, NativeData)>)
    ensures
        NativeData::Dict(entries).view() == Native::Dict(entries_view(entries@)),
{
    assert(NativeData::Dict(entries).view()->Dict_0 =~= entries_view(entries@));
}

/// The view of a sequence is the views of its items.
pub proof fn lemma_view_list(items: Vec<NativeData>)
    ensures
        NativeData::List(items).view() == Native::List(items_view(items@)),
{
    assert(NativeData::List(items).view()->List_0 =~= items_view(items@));
}

} // verus!
