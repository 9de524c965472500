use vstd::prelude::*;

use crate::value::{Reference, Value};

verus! {

/// The boundary value conversion capability.
///
/// Every argument type and every return type of a registered closure must be
/// convertible into and out of the boundary's [`Value`] representation.  The
/// conversion is total going out (`encode`), partial coming back (`decode`,
/// since an arbitrary boundary value need not have the expected shape), and
/// lossless: decoding an encoded value gives the value back
/// ([`Codec::lemma_round_trip`]).
pub trait Codec: Sized {
    /// How a value of this type looks on the boundary.
    spec fn encode_spec(self) -> Value;

    /// Which boundary values convert back into this type, and to what.
    spec fn decode_spec(v: Value) -> Option<Self>;

    /// The conversion loses nothing: every encoded value decodes back to
    /// exactly itself.
    proof fn lemma_round_trip(self)
        ensures
            Self::decode_spec(self.encode_spec()) == Some(self),
    ;

    /// Convert a value of this type into its boundary representation.
    fn encode(self) -> (v: Value)
        ensures
            v == self.encode_spec(),
    ;

    /// Convert a boundary value back, if it has the expected shape.
    fn decode(v: Value) -> (r: Option<Self>)
        ensures
            r == Self::decode_spec(v),
    ;
}

impl Codec for i64 {
    open spec fn encode_spec(self) -> Value {
        Value::Int(self)
    }

    open spec fn decode_spec(v: Value) -> Option<i64> {
        match v {
            Value::Int(i) => Some(i),
            _ => None,
        }
    }

    proof fn lemma_round_trip(self) {
    }

    fn encode(self) -> Value {
        Value::Int(self)
    }

    fn decode(v: Value) -> Option<i64> {
        match v {
            Value::Int(i) => Some(i),
            _ => None,
        }
    }
}

impl Codec for bool {
    open spec fn encode_spec(self) -> Value {
        Value::Bool(self)
    }

    open spec fn decode_spec(v: Value) -> Option<bool> {
        match v {
            Value::Bool(b) => Some(b),
            _ => None,
        }
    }

    proof fn lemma_round_trip(self) {
    }

    fn encode(self) -> Value {
        Value::Bool(self)
    }

    fn decode(v: Value) -> Option<bool> {
        match v {
            Value::Bool(b) => Some(b),
            _ => None,
        }
    }
}

impl Codec for String {
    open spec fn encode_spec(self) -> Value {
        Value::Text(self)
    }

    open spec fn decode_spec(v: Value) -> Option<String> {
        match v {
            Value::Text(s) => Some(s),
            _ => None,
        }
    }

    proof fn lemma_round_trip(self) {
    }

    fn encode(self) -> Value {
        Value::Text(self)
    }

    fn decode(v: Value) -> Option<String> {
        match v {
            Value::Text(s) => Some(s),
            _ => None,
        }
    }
}

impl Codec for Reference {
    open spec fn encode_spec(self) -> Value {
        Value::Ref(self)
    }

    open spec fn decode_spec(v: Value) -> Option<Reference> {
        match v {
            Value::Ref(r) => Some(r),
            _ => None,
        }
    }

    proof fn lemma_round_trip(self) {
    }

    fn encode(self) -> Value {
        Value::Ref(self)
    }

    fn decode(v: Value) -> Option<Reference> {
        match v {
            Value::Ref(r) => Some(r),
            _ => None,
        }
    }
}

/// The argument shape of a native callback.
///
/// The host hands the arguments of an invocation over as one sequence of
/// boundary values.  This trait is implemented once per supported argument
/// count, on the corresponding tuple of [`Codec`] types, so registration and
/// invocation work uniformly for every arity: an argument tuple encodes into
/// the sequence of its encoded components, and decoding demands exactly that
/// shape back.
pub trait Arguments: Sized {
    /// How this argument tuple looks on the boundary.
    spec fn encode_args_spec(self) -> Seq<Value>;

    /// Which argument sequences convert back into this tuple, and to what.
    spec fn decode_args_spec(vs: Seq<Value>) -> Option<Self>;

    /// The argument conversion loses nothing: every encoded argument tuple
    /// decodes back to exactly itself.
    proof fn lemma_args_round_trip(self)
        ensures
            Self::decode_args_spec(self.encode_args_spec()) == Some(self),
    ;

    /// Convert an argument tuple into the sequence the host passes along.
    fn encode_args(self) -> (vs: Vec<Value>)
        ensures
            vs@ == self.encode_args_spec(),
    ;

    /// Convert an argument sequence back, if it has the expected arity and
    /// component shapes.
    fn decode_args(vs: Vec<Value>) -> (r: Option<Self>)
        ensures
            r == Self::decode_args_spec(vs@),
    ;
}

impl Arguments for () {
    open spec fn encode_args_spec(self) -> Seq<Value> {
        Seq::empty()
    }

    open spec fn decode_args_spec(vs: Seq<Value>) -> Option<()> {
        if vs.len() == 0 {
            Some(())
        } else {
            None
        }
    }

    proof fn lemma_args_round_trip(self) {
    }

    fn encode_args(self) -> (vs: Vec<Value>)
    {
        Vec::new()
    }

    fn decode_args(vs: Vec<Value>) -> Option<()> {
        if vs.len() == 0 {
            Some(())
        } else {
            None
        }
    }
}

impl<A: Codec> Arguments for (A,) {
    open spec fn encode_args_spec(self) -> Seq<Value> {
        seq![self.0.encode_spec()]
    }

    open spec fn decode_args_spec(vs: Seq<Value>) -> Option<(A,)> {
        if vs.len() == 1 {
            match A::decode_spec(vs[0]) {
                Some(a) => Some((a,)),
                None => None,
            }
        } else {
            None
        }
    }

    proof fn lemma_args_round_trip(self) {
        self.0.lemma_round_trip();
    }

    fn encode_args(self) -> (vs: Vec<Value>)
    {
        let mut vs: Vec<Value> = Vec::new();
        vs.push(self.0.encode());
        proof {
            assert(vs@ =~= self.encode_args_spec());
        }
        vs
    }

    fn decode_args(vs: Vec<Value>) -> Option<(A,)> {
        if vs.len() != 1 {
            return None;
        }
        let mut rest = vs;
        let v0 = rest.pop().unwrap();
        match A::decode(v0) {
            Some(a) => Some((a,)),
            None => None,
        }
    }
}

impl<A: Codec, B: Codec> Arguments for (A, B) {
    open spec fn encode_args_spec(self) -> Seq<Value> {
        seq![self.0.encode_spec(), self.1.encode_spec()]
    }

    open spec fn decode_args_spec(vs: Seq<Value>) -> Option<(A, B)> {
        if vs.len() == 2 {
            match (A::decode_spec(vs[0]), B::decode_spec(vs[1])) {
                (Some(a), Some(b)) => Some((a, b)),
                _ => None,
            }
        } else {
            None
        }
    }

    proof fn lemma_args_round_trip(self) {
        self.0.lemma_round_trip();
        self.1.lemma_round_trip();
    }

    fn encode_args(self) -> (vs: Vec<Value>)
    {
        let mut vs: Vec<Value> = Vec::new();
        vs.push(self.0.encode());
        vs.push(self.1.encode());
        proof {
            assert(vs@ =~= self.encode_args_spec());
        }
        vs
    }

    fn decode_args(vs: Vec<Value>) -> Option<(A, B)> {
        if vs.len() != 2 {
            return None;
        }
        let mut rest = vs;
        let v1 = rest.pop().unwrap();
        let v0 = rest.pop().unwrap();
        match (A::decode(v0), B::decode(v1)) {
            (Some(a), Some(b)) => Some((a, b)),
            _ => None,
        }
    }
}

impl<A: Codec, B: Codec, C: Codec> Arguments for (A, B, C) {
    open spec fn encode_args_spec(self) -> Seq<Value> {
        seq![self.0.encode_spec(), self.1.encode_spec(), self.2.encode_spec()]
    }

    open spec fn decode_args_spec(vs: Seq<Value>) -> Option<(A, B, C)> {
        if vs.len() == 3 {
            match (A::decode_spec(vs[0]), B::decode_spec(vs[1]), C::decode_spec(vs[2])) {
                (Some(a), Some(b), Some(c)) => Some((a, b, c)),
                _ => None,
            }
        } else {
            None
        }
    }

    proof fn lemma_args_round_trip(self) {
        self.0.lemma_round_trip();
        self.1.lemma_round_trip();
        self.2.lemma_round_trip();
    }

    fn encode_args(self) -> (vs: Vec<Value>)
    {
        let mut vs: Vec<Value> = Vec::new();
        vs.push(self.0.encode());
        vs.push(self.1.encode());
        vs.push(self.2.encode());
        proof {
            assert(vs@ =~= self.encode_args_spec());
        }
        vs
    }

    fn decode_args(vs: Vec<Value>) -> Option<(A, B, C)> {
        if vs.len() != 3 {
            return None;
        }
        let mut rest = vs;
        let v2 = rest.pop().unwrap();
        let v1 = rest.pop().unwrap();
        let v0 = rest.pop().unwrap();
        match (A::decode(v0), B::decode(v1), C::decode(v2)) {
            (Some(a), Some(b), Some(c)) => Some((a, b, c)),
            _ => None,
        }
    }
}

impl Codec for () {
    open spec fn encode_spec(self) -> Value {
        Value::Null
    }

    open spec fn decode_spec(v: Value) -> Option<()> {
        match v {
            Value::Null => Some(()),
            _ => None,
        }
    }

    proof fn lemma_round_trip(self) {
    }

    fn encode(self) -> Value {
        Value::Null
    }

    fn decode(v: Value) -> Option<()> {
        match v {
            Value::Null => Some(()),
            _ => None,
        }
    }
}

} // verus!
