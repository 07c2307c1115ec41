//! Values as they travel on the bus, and the types that they decode into.

use vstd::prelude::*;

use crate::error::Error;

verus! {

/// A real number of the bus (a double), held in millionths.
#[derive(Debug, Clone, Copy, PartialEq, Eq, Structural)]
pub struct Fixed {
    pub millionths: i64,
}

/// A value of the bus, of one of the shapes that the descriptors use.
#[derive(Debug, Clone, PartialEq)]
pub enum WireValue {
    Bool(bool),
    Str(String),
    StrList(Vec<String>),
    Int64(i64),
    Double(Fixed),
    /// A value of a shape that no descriptor uses.
    Other,
}

/// What a `WireValue` holds, with its strings seen as sequences of characters.
pub enum Wire {
    Bool(bool),
    Str(Seq<char>),
    StrList(Seq<Seq<char>>),
    Int64(i64),
    Double(Fixed),
    Other,
}

impl View for WireValue {
    type V = Wire;

    open spec fn view(&self) -> Wire {
        match self {
            WireValue::Bool(b) => Wire::Bool(*b),
            WireValue::Str(s) => Wire::Str(s@),
            WireValue::StrList(l) => Wire::StrList(l.deep_view()),
            WireValue::Int64(i) => Wire::Int64(*i),
            WireValue::Double(f) => Wire::Double(*f),
            WireValue::Other => Wire::Other,
        }
    }
}

impl DeepView for Fixed {
    type V = Fixed;

    open spec fn deep_view(&self) -> Fixed {
        *self
    }
}

/// A type that a value of the bus decodes into, as one fixed shape.
pub trait WireType: Sized + DeepView {
    /// What `w` decodes to, if it has this type's shape.
    spec fn decode(w: Wire) -> Option<Self::V>;

    /// The value of the bus that `v` encodes to.
    spec fn encode(v: Self::V) -> Wire;

    /// Decodes `w`; a value of another shape is a parse error.
    fn from_wire(w: WireValue) -> (r: Result<Self, Error>)
        ensures
            match Self::decode(w@) {
                Some(v) => r is Ok && r->Ok_0.deep_view() == v,
                None => r == Err::<Self, Error>(Error::Parse),
            },
    ;

    /// Encodes `self`.
    fn to_wire(self) -> (r: WireValue)
        ensures
            r@ == Self::encode(self.deep_view()),
    ;

    /// What is encoded decodes back to itself.
    proof fn lemma_decode_encode(v: Self::V)
        ensures
            Self::decode(Self::encode(v)) == Some(v),
    ;
}

impl WireType for bool {
    open spec fn decode(w: Wire) -> Option<bool> {
        match w {
            Wire::Bool(b) => Some(b),
            _ => None,
        }
    }

    open spec fn encode(v: bool) -> Wire {
        Wire::Bool(v)
    }

    fn from_wire(w: WireValue) -> (r: Result<bool, Error>) {
        match w {
            WireValue::Bool(b) => Ok(b),
            _ => Err(Error::Parse),
        }
    }

    fn to_wire(self) -> (r: WireValue) {
        WireValue::Bool(self)
    }

    proof fn lemma_decode_encode(v: bool) {
    }
}

impl WireType for String {
    open spec fn decode(w: Wire) -> Option<Seq<char>> {
        match w {
            Wire::Str(s) => Some(s),
            _ => None,
        }
    }

    open spec fn encode(v: Seq<char>) -> Wire {
        Wire::Str(v)
    }

    fn from_wire(w: WireValue) -> (r: Result<String, Error>) {
        match w {
            WireValue::Str(s) => Ok(s),
            _ => Err(Error::Parse),
        }
    }

    fn to_wire(self) -> (r: WireValue) {
        WireValue::Str(self)
    }

    proof fn lemma_decode_encode(v: Seq<char>) {
    }
}

impl WireType for Vec<String> {
    open spec fn decode(w: Wire) -> Option<Seq<Seq<char>>> {
        match w {
            Wire::StrList(l) => Some(l),
            _ => None,
        }
    }

    open spec fn encode(v: Seq<Seq<char>>) -> Wire {
        Wire::StrList(v)
    }

    fn from_wire(w: WireValue) -> (r: Result<Vec<String>, Error>) {
        match w {
            WireValue::StrList(l) => Ok(l),
            _ => Err(Error::Parse),
        }
    }

    fn to_wire(self) -> (r: WireValue) {
        WireValue::StrList(self)
    }

    proof fn lemma_decode_encode(v: Seq<Seq<char>>) {
    }
}

impl WireType for i64 {
    open spec fn decode(w: Wire) -> Option<i64> {
        match w {
            Wire::Int64(i) => Some(i),
            _ => None,
        }
    }

    open spec fn encode(v: i64) -> Wire {
        Wire::Int64(v)
    }

    fn from_wire(w: WireValue) -> (r: Result<i64, Error>) {
        match w {
            WireValue::Int64(i) => Ok(i),
            _ => Err(Error::Parse),
        }
    }

    fn to_wire(self) -> (r: WireValue) {
        WireValue::Int64(self)
    }

    proof fn lemma_decode_encode(v: i64) {
    }
}

impl WireType for Fixed {
    open spec fn decode(w: Wire) -> Option<Fixed> {
        match w {
            Wire::Double(f) => Some(f),
            _ => None,
        }
    }

    open spec fn encode(v: Fixed) -> Wire {
        Wire::Double(v)
    }

    fn from_wire(w: WireValue) -> (r: Result<Fixed, Error>) {
        match w {
            WireValue::Double(f) => Ok(f),
            _ => Err(Error::Parse),
        }
    }

    fn to_wire(self) -> (r: WireValue) {
        WireValue::Double(self)
    }

    proof fn lemma_decode_encode(v: Fixed) {
    }
}

} // verus!
