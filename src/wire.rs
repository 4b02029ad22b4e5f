use vstd::prelude::*;

verus! {

/// A value that the remote procedure interface can carry.
///
/// The set of variants is closed: every consumer matches on all of them.
/// `Struct` holds its members in serialization order; its names are meant
/// to be unique (see `WireValue::wf`).
#[derive(Debug)]
pub enum WireValue {
    Str(String),
    Int(i64),
    Bool(bool),
    /// A point in time, as ISO-8601 text.
    DateTime(String),
    List(Vec<WireValue>),
    Struct(Vec<(String, WireValue)>),
}

/// The member names of a structure, in order.
pub open spec fn member_names(members: Seq<(String, WireValue)>) -> Seq<Seq<char>> {
    members.map_values(|m: (String, WireValue)| m.0@)
}

/// No name occurs twice.
pub open spec fn names_unique(names: Seq<Seq<char>>) -> bool {
    forall|i: int, j: int| 0 <= i < j < names.len() ==> names[i] != names[j]
}

impl WireValue {
    /// Every structure, at every depth, has unique member names.
    pub open spec fn wf(self) -> bool
        decreases self,
    {
        match self {
            WireValue::List(items) => forall|i: int|
                0 <= i < items.len() ==> (#[trigger] items@[i]).wf(),
            WireValue::Struct(members) => {
                &&& names_unique(member_names(members@))
                &&& forall|i: int| 0 <= i < members.len() ==> (#[trigger] members@[i]).1.wf()
            },
            _ => true,
        }
    }
}

} // verus!
