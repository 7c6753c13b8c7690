//! Column values: a tagged union over the scalar kinds of `Type`.

use crate::error::GsError;
use crate::types::Type;
use vstd::prelude::*;

verus! {

/// A point in time: a signed offset in milliseconds from the Unix epoch.
#[derive(PartialEq, Eq, Structural, Clone, Copy, Debug)]
pub struct Timestamp {
    pub value: i64,
}

/// A spatial value, held as its textual form.
#[derive(Clone, Debug, PartialEq, Eq)]
pub struct Geometry {
    value: String,
}

/// The absence of a value.
pub struct Null {}

/// One column value. Floating-point values are held as their IEEE-754 bit
/// patterns, so that equality of values is equality of bits (a NaN equals
/// itself, and `0.0` differs from `-0.0`).
#[derive(Clone, Debug, PartialEq, Eq)]
pub enum Value {
    Str(String),
    Bool(bool),
    Byte(i8),
    Short(i16),
    Integer(i32),
    Long(i64),
    /// A single-precision float, as the bits of an `f32`.
    Float(u32),
    /// A double-precision float, as the bits of an `f64`.
    Double(u64),
    Timestamp(Timestamp),
    Geometry(Geometry),
    Blob(Vec<u8>),
}

impl View for Geometry {
    type V = Seq<char>;

    closed spec fn view(&self) -> Seq<char> {
        self.value@
    }
}

impl Geometry {
    /// The textual form of this geometry.
    pub fn text(&self) -> (r: &String)
        ensures
            r@ == self@,
    {
        &self.value
    }
}

impl From<String> for Geometry {
    fn from(item: String) -> (r: Geometry)
        ensures
            r@ == item@,
    {
        Geometry { value: item }
    }
}

impl vstd::std_specs::convert::FromSpecImpl<String> for Geometry {
    open spec fn obeys_from_spec() -> bool {
        true
    }

    closed spec fn from_spec(v: String) -> Geometry {
        Geometry { value: v }
    }
}

/// The column type of a value.
pub open spec fn kind_of(v: Value) -> Type {
    match v {
        Value::Str(_) => Type::String,
        Value::Bool(_) => Type::Bool,
        Value::Byte(_) => Type::Byte,
        Value::Short(_) => Type::Short,
        Value::Integer(_) => Type::Integer,
        Value::Long(_) => Type::Long,
        Value::Float(_) => Type::Float,
        Value::Double(_) => Type::Double,
        Value::Timestamp(_) => Type::Timestamp,
        Value::Geometry(_) => Type::Geometry,
        Value::Blob(_) => Type::Blob,
    }
}

impl Value {
    /// Builds a value from any native scalar that converts into one.
    pub fn new<A: Into<Value>>(args: A) -> (r: Value)
        ensures
            call_ensures(A::into, (args,), r),
    {
        args.into()
    }

    /// The column type of this value.
    pub fn data_type(&self) -> (r: Type)
        ensures
            r == kind_of(*self),
    {
        match self {
            Value::Str(_) => Type::String,
            Value::Bool(_) => Type::Bool,
            Value::Byte(_) => Type::Byte,
            Value::Short(_) => Type::Short,
            Value::Integer(_) => Type::Integer,
            Value::Long(_) => Type::Long,
            Value::Float(_) => Type::Float,
            Value::Double(_) => Type::Double,
            Value::Timestamp(_) => Type::Timestamp,
            Value::Geometry(_) => Type::Geometry,
            Value::Blob(_) => Type::Blob,
        }
    }

    /// The string this value holds; `Convert` for any other kind.
    pub fn into_string(self) -> (r: Result<String, GsError>)
        ensures
            r == (match self {
                Value::Str(s) => Ok(s),
                _ => Err(GsError::Convert),
            }),
    {
        match self {
            Value::Str(s) => Ok(s),
            _ => Err(GsError::Convert),
        }
    }

    /// The boolean this value holds; `Convert` for any other kind.
    pub fn into_bool(self) -> (r: Result<bool, GsError>)
        ensures
            r == (match self {
                Value::Bool(b) => Ok(b),
                _ => Err(GsError::Convert),
            }),
    {
        match self {
            Value::Bool(b) => Ok(b),
            _ => Err(GsError::Convert),
        }
    }

    /// The byte this value holds; `Convert` for any other kind.
    pub fn into_byte(self) -> (r: Result<i8, GsError>)
        ensures
            r == (match self {
                Value::Byte(b) => Ok(b),
                _ => Err(GsError::Convert),
            }),
    {
        match self {
            Value::Byte(b) => Ok(b),
            _ => Err(GsError::Convert),
        }
    }

    /// The short integer this value holds; `Convert` for any other kind.
    pub fn into_short(self) -> (r: Result<i16, GsError>)
        ensures
            r == (match self {
                Value::Short(n) => Ok(n),
                _ => Err(GsError::Convert),
            }),
    {
        match self {
            Value::Short(n) => Ok(n),
            _ => Err(GsError::Convert),
        }
    }

    /// The integer this value holds; `Convert` for any other kind.
    pub fn into_integer(self) -> (r: Result<i32, GsError>)
        ensures
            r == (match self {
                Value::Integer(n) => Ok(n),
                _ => Err(GsError::Convert),
            }),
    {
        match self {
            Value::Integer(n) => Ok(n),
            _ => Err(GsError::Convert),
        }
    }

    /// The long integer this value holds; `Convert` for any other kind.
    pub fn into_long(self) -> (r: Result<i64, GsError>)
        ensures
            r == (match self {
                Value::Long(n) => Ok(n),
                _ => Err(GsError::Convert),
            }),
    {
        match self {
            Value::Long(n) => Ok(n),
            _ => Err(GsError::Convert),
        }
    }

    /// The bits of the single-precision float this value holds; `Convert`
    /// for any other kind.
    pub fn into_float_bits(self) -> (r: Result<u32, GsError>)
        ensures
            r == (match self {
                Value::Float(b) => Ok(b),
                _ => Err(GsError::Convert),
            }),
    {
        match self {
            Value::Float(b) => Ok(b),
            _ => Err(GsError::Convert),
        }
    }

    /// The bits of the double-precision float this value holds; `Convert`
    /// for any other kind.
    pub fn into_double_bits(self) -> (r: Result<u64, GsError>)
        ensures
            r == (match self {
                Value::Double(b) => Ok(b),
                _ => Err(GsError::Convert),
            }),
    {
        match self {
            Value::Double(b) => Ok(b),
            _ => Err(GsError::Convert),
        }
    }

    /// The timestamp this value holds; `Convert` for any other kind.
    pub fn into_timestamp(self) -> (r: Result<Timestamp, GsError>)
        ensures
            r == (match self {
                Value::Timestamp(t) => Ok(t),
                _ => Err(GsError::Convert),
            }),
    {
        match self {
            Value::Timestamp(t) => Ok(t),
            _ => Err(GsError::Convert),
        }
    }

    /// The geometry this value holds; `Convert` for any other kind.
    pub fn into_geometry(self) -> (r: Result<Geometry, GsError>)
        ensures
            r == (match self {
                Value::Geometry(g) => Ok(g),
                _ => Err(GsError::Convert),
            }),
    {
        match self {
            Value::Geometry(g) => Ok(g),
            _ => Err(GsError::Convert),
        }
    }

    /// The bytes this value holds; `Convert` for any other kind.
    pub fn into_blob(self) -> (r: Result<Vec<u8>, GsError>)
        ensures
            r == (match self {
                Value::Blob(b) => Ok(b),
                _ => Err(GsError::Convert),
            }),
    {
        match self {
            Value::Blob(b) => Ok(b),
            _ => Err(GsError::Convert),
        }
    }
}

impl From<String> for Value {
    fn from(item: String) -> (r: Value)
        ensures
            r == Value::Str(item),
    {
        Value::Str(item)
    }
}

impl vstd::std_specs::convert::FromSpecImpl<String> for Value {
    open spec fn obeys_from_spec() -> bool {
        true
    }

    open spec fn from_spec(v: String) -> Value {
        Value::Str(v)
    }
}

impl From<bool> for Value {
    fn from(item: bool) -> (r: Value)
        ensures
            r == Value::Bool(item),
    {
        Value::Bool(item)
    }
}

impl vstd::std_specs::convert::FromSpecImpl<bool> for Value {
    open spec fn obeys_from_spec() -> bool {
        true
    }

    open spec fn from_spec(v: bool) -> Value {
        Value::Bool(v)
    }
}

impl From<i8> for Value {
    fn from(item: i8) -> (r: Value)
        ensures
            r == Value::Byte(item),
    {
        Value::Byte(item)
    }
}

impl vstd::std_specs::convert::FromSpecImpl<i8> for Value {
    open spec fn obeys_from_spec() -> bool {
        true
    }

    open spec fn from_spec(v: i8) -> Value {
        Value::Byte(v)
    }
}

impl From<i16> for Value {
    fn from(item: i16) -> (r: Value)
        ensures
            r == Value::Short(item),
    {
        Value::Short(item)
    }
}

impl vstd::std_specs::convert::FromSpecImpl<i16> for Value {
    open spec fn obeys_from_spec() -> bool {
        true
    }

    open spec fn from_spec(v: i16) -> Value {
        Value::Short(v)
    }
}

impl From<i32> for Value {
    fn from(item: i32) -> (r: Value)
        ensures
            r == Value::Integer(item),
    {
        Value::Integer(item)
    }
}

impl vstd::std_specs::convert::FromSpecImpl<i32> for Value {
    open spec fn obeys_from_spec() -> bool {
        true
    }

    open spec fn from_spec(v: i32) -> Value {
        Value::Integer(v)
    }
}

impl From<i64> for Value {
    fn from(item: i64) -> (r: Value)
        ensures
            r == Value::Long(item),
    {
        Value::Long(item)
    }
}

impl vstd::std_specs::convert::FromSpecImpl<i64> for Value {
    open spec fn obeys_from_spec() -> bool {
        true
    }

    open spec fn from_spec(v: i64) -> Value {
        Value::Long(v)
    }
}

impl From<Timestamp> for Value {
    fn from(item: Timestamp) -> (r: Value)
        ensures
            r == Value::Timestamp(item),
    {
        Value::Timestamp(item)
    }
}

impl vstd::std_specs::convert::FromSpecImpl<Timestamp> for Value {
    open spec fn obeys_from_spec() -> bool {
        true
    }

    open spec fn from_spec(v: Timestamp) -> Value {
        Value::Timestamp(v)
    }
}

impl From<Geometry> for Value {
    fn from(item: Geometry) -> (r: Value)
        ensures
            r == Value::Geometry(item),
    {
        Value::Geometry(item)
    }
}

impl vstd::std_specs::convert::FromSpecImpl<Geometry> for Value {
    open spec fn obeys_from_spec() -> bool {
        true
    }

    open spec fn from_spec(v: Geometry) -> Value {
        Value::Geometry(v)
    }
}

impl From<Vec<u8>> for Value {
    fn from(item: Vec<u8>) -> (r: Value)
        ensures
            r == Value::Blob(item),
    {
        Value::Blob(item)
    }
}

impl vstd::std_specs::convert::FromSpecImpl<Vec<u8>> for Value {
    open spec fn obeys_from_spec() -> bool {
        true
    }

    open spec fn from_spec(v: Vec<u8>) -> Value {
        Value::Blob(v)
    }
}

} // verus!
