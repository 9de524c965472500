use vstd::prelude::*;

verus! {

/// An opaque handle to an object that lives in the host runtime.
///
/// A reference is issued by the host when a native closure is registered and
/// identifies that registration until it is released.  It is a plain
/// identifier: copying it or passing it across the boundary does not change
/// it, and two references denote the same registration iff they are equal.
#[derive(Clone, Copy, PartialEq, Eq, Structural, Debug, Hash)]
pub struct Reference {
    pub id: usize,
}

/// The boundary's value representation.
///
/// Every argument handed to a native callback and every result handed back
/// crosses the boundary as one of these.  Native types take part in a call
/// by converting into and out of this representation (see [`crate::codec`]).
#[derive(Clone, PartialEq, Eq, Debug)]
pub enum Value {
    /// The host's unit / absent value.
    Null,
    /// A boolean.
    Bool(bool),
    /// A signed integer.
    Int(i64),
    /// A piece of text.
    Text(String),
    /// A reference to an object owned by the host.
    Ref(Reference),
}

} // verus!
