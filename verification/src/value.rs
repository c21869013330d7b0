//! Dynamically typed column storage and its decoding into statically typed
//! host values.

use vstd::prelude::*;

use crate::error::Error;

verus! {

/// The runtime type of a stored value.
#[derive(Clone, Copy, Debug, PartialEq, Eq, Structural)]
pub enum Type {
    Binary,
    Float,
    Integer,
    String,
    Null,
}

/// A 64-bit floating-point column value, carried as its IEEE 754 bit
/// pattern so that storage and comparison stay exact.
#[derive(Clone, Copy, Debug, PartialEq, Eq, Structural)]
pub struct FloatBits {
    pub bits: u64,
}

/// One column's data: a closed tagged union over the engine's storage
/// classes.
#[derive(Debug, PartialEq)]
pub enum Value {
    /// Binary data.
    Binary(Vec<u8>),
    /// A floating-point number, by its bit pattern.
    Float(FloatBits),
    /// A 64-bit signed integer.
    Integer(i64),
    /// A string.
    String(String),
    /// A null value.
    Null,
}

/// The mathematical shape of a `Value`: byte and character content in place
/// of the owning containers.
pub enum ValueView {
    Binary(Seq<u8>),
    Float(FloatBits),
    Integer(i64),
    Text(Seq<char>),
    Null,
}

impl View for Value {
    type V = ValueView;

    open spec fn view(&self) -> ValueView {
        match *self {
            Value::Binary(b) => ValueView::Binary(b@),
            Value::Float(f) => ValueView::Float(f),
            Value::Integer(i) => ValueView::Integer(i),
            Value::String(s) => ValueView::Text(s@),
            Value::Null => ValueView::Null,
        }
    }
}

/// The runtime type of a stored value, at the view level.
pub open spec fn kind_of(v: ValueView) -> Type {
    match v {
        ValueView::Binary(_) => Type::Binary,
        ValueView::Float(_) => Type::Float,
        ValueView::Integer(_) => Type::Integer,
        ValueView::Text(_) => Type::String,
        ValueView::Null => Type::Null,
    }
}

impl Value {
    /// The runtime type of the value.
    pub fn kind(&self) -> (t: Type)
        ensures
            t == kind_of(self@),
    {
        match *self {
            Value::Binary(_) => Type::Binary,
            Value::Float(_) => Type::Float,
            Value::Integer(_) => Type::Integer,
            Value::String(_) => Type::String,
            Value::Null => Type::Null,
        }
    }

    /// Decode the value into a host type, failing when the stored type
    /// disagrees with the requested one.
    pub fn try_into<T: FromValue>(&self) -> (r: Result<T, Error>)
        ensures
            T::accepts(self@) ==> (r matches Ok(t) && T::decodes(self@, t)),
            !T::accepts(self@) ==> (r matches Err(e) && e.is_type_mismatch()),
    {
        T::from_value(self)
    }
}

impl Clone for Value {
    fn clone(&self) -> (r: Self)
        ensures
            r@ == self@,
    {
        match self {
            Value::Binary(b) => Value::Binary(clone_bytes(b)),
            Value::Float(f) => Value::Float(*f),
            Value::Integer(i) => Value::Integer(*i),
            Value::String(s) => Value::String(s.clone()),
            Value::Null => Value::Null,
        }
    }
}

/// An exact copy of a byte vector.
fn clone_bytes(b: &Vec<u8>) -> (r: Vec<u8>)
    ensures
        r@ == b@,
{
    let mut r: Vec<u8> = Vec::new();
    let mut i: usize = 0;
    while i < b.len()
        invariant
            i <= b.len(),
            r@ == b@.subrange(0, i as int),
        decreases b.len() - i,
    {
        r.push(b[i]);
        assert(r@ == b@.subrange(0, i + 1 as int));
        i = i + 1;
    }
    assert(b@.subrange(0, b@.len() as int) == b@);
    r
}

/// An elementwise copy of a value vector, exact at the view level.
pub fn clone_values(values: &Vec<Value>) -> (r: Vec<Value>)
    ensures
        r@.len() == values@.len(),
        forall|i: int| 0 <= i < values@.len() ==> (#[trigger] r@[i])@ == values@[i]@,
{
    let mut r: Vec<Value> = Vec::new();
    let mut i: usize = 0;
    while i < values.len()
        invariant
            i <= values.len(),
            r@.len() == i,
            forall|j: int| 0 <= j < i ==> (#[trigger] r@[j])@ == values@[j]@,
        decreases values.len() - i,
    {
        r.push(values[i].clone());
        i = i + 1;
    }
    r
}

/// A host type that a stored value can decode into.
///
/// `accepts` says which stored shapes decode at all; `decodes` relates a
/// stored shape to the host values that faithfully represent it.  Numeric
/// targets reject non-numeric storage, string and binary targets are
/// type-exact, and no decoding ever coerces.
pub trait FromValue: Sized {
    /// Whether a value of this shape decodes into `Self`.
    spec fn accepts(v: ValueView) -> bool;

    /// Whether `t` is the decoding of a value of shape `v`.
    spec fn decodes(v: ValueView, t: Self) -> bool;

    /// Decode, returning a type-mismatch error exactly when the stored
    /// shape is not accepted.
    fn from_value(v: &Value) -> (r: Result<Self, Error>)
        ensures
            Self::accepts(v@) ==> (r matches Ok(t) && Self::decodes(v@, t)),
            !Self::accepts(v@) ==> (r matches Err(e) && e.is_type_mismatch()),
    ;
}

impl FromValue for i64 {
    open spec fn accepts(v: ValueView) -> bool {
        v is Integer
    }

    open spec fn decodes(v: ValueView, t: i64) -> bool {
        v matches ValueView::Integer(i) && t == i
    }

    fn from_value(v: &Value) -> (r: Result<i64, Error>) {
        match v {
            Value::Integer(i) => Ok(*i),
            _ => Err(Error::type_mismatch()),
        }
    }
}

impl FromValue for FloatBits {
    open spec fn accepts(v: ValueView) -> bool {
        v is Float
    }

    open spec fn decodes(v: ValueView, t: FloatBits) -> bool {
        v matches ValueView::Float(f) && t == f
    }

    fn from_value(v: &Value) -> (r: Result<FloatBits, Error>) {
        match v {
            Value::Float(f) => Ok(*f),
            _ => Err(Error::type_mismatch()),
        }
    }
}

impl FromValue for String {
    open spec fn accepts(v: ValueView) -> bool {
        v is Text
    }

    open spec fn decodes(v: ValueView, t: String) -> bool {
        v matches ValueView::Text(s) && t@ == s
    }

    fn from_value(v: &Value) -> (r: Result<String, Error>) {
        match v {
            Value::String(s) => Ok(s.clone()),
            _ => Err(Error::type_mismatch()),
        }
    }
}

impl FromValue for Vec<u8> {
    open spec fn accepts(v: ValueView) -> bool {
        v is Binary
    }

    open spec fn decodes(v: ValueView, t: Vec<u8>) -> bool {
        v matches ValueView::Binary(b) && t@ == b
    }

    fn from_value(v: &Value) -> (r: Result<Vec<u8>, Error>) {
        match v {
            Value::Binary(b) => Ok(clone_bytes(b)),
            _ => Err(Error::type_mismatch()),
        }
    }
}

impl FromValue for Value {
    open spec fn accepts(v: ValueView) -> bool {
        true
    }

    open spec fn decodes(v: ValueView, t: Value) -> bool {
        t@ == v
    }

    fn from_value(v: &Value) -> (r: Result<Value, Error>) {
        Ok(v.clone())
    }
}

/// Numeric targets are type-exact: a float target accepts float storage
/// alone and an integer target integer storage alone, so a type
/// disagreement is always an error and never a silent coercion.
pub proof fn lemma_numeric_targets_are_exact(v: ValueView)
    ensures
        <FloatBits as FromValue>::accepts(v) <==> v is Float,
        <i64 as FromValue>::accepts(v) <==> v is Integer,
{
}

/// A NULL column decodes to `None` under every optional target; any other
/// stored value decodes to `Some` by the bare target's own rule, and is
/// rejected exactly when the bare target rejects it.
pub proof fn lemma_option_decoding<T: FromValue>(v: ValueView, t: Option<T>)
    ensures
        v is Null ==> <Option<T> as FromValue>::accepts(v),
        v is Null ==> (<Option<T> as FromValue>::decodes(v, t) <==> t is None),
        !(v is Null) ==> (<Option<T> as FromValue>::accepts(v) <==> T::accepts(v)),
        !(v is Null) ==> (<Option<T> as FromValue>::decodes(v, t) <==> (t matches Some(x)
            && T::decodes(v, x))),
{
}

impl<T: FromValue> FromValue for Option<T> {
    /// A null column decodes to `None` for every target; any other value
    /// follows the bare target's rule.
    open spec fn accepts(v: ValueView) -> bool {
        v is Null || T::accepts(v)
    }

    open spec fn decodes(v: ValueView, t: Option<T>) -> bool {
        if v is Null {
            t is None
        } else {
            t matches Some(x) && T::decodes(v, x)
        }
    }

    fn from_value(v: &Value) -> (r: Result<Option<T>, Error>) {
        match v {
            Value::Null => Ok(None),
            _ => match T::from_value(v) {
                Ok(t) => Ok(Some(t)),
                Err(e) => Err(e),
            },
        }
    }
}

} // verus!
