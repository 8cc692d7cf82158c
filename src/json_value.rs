use vstd::prelude::*;

verus! {

/// A decoded JSON value.
#[derive(Debug, PartialEq)]
pub enum JsonValue {
    String(String),
    Integer(i64),
    /// A floating-point number, held as the bits of its IEEE 754 binary64
    /// encoding (`f64::to_bits`).
    Float(u64),
    /// The members of an object, in no particular order.
    Dictionary(Vec<(String, JsonValue)>),
    Array(Vec<JsonValue>),
    Null,
    False,
    True,
}

impl JsonValue {
    /// The `i`-th element of an array; `None` for anything else or past its
    /// end.
    pub open spec fn item(self, i: int) -> Option<JsonValue> {
        match self {
            JsonValue::Array(items) => if 0 <= i < items@.len() {
                Some(items@[i])
            } else {
                None
            },
            _ => None,
        }
    }

    /// The elements of an array.
    pub open spec fn array(self) -> Option<Seq<JsonValue>> {
        match self {
            JsonValue::Array(items) => Some(items@),
            _ => None,
        }
    }

    /// The value of an integer.
    pub open spec fn integer(self) -> Option<i64> {
        match self {
            JsonValue::Integer(n) => Some(n),
            _ => None,
        }
    }

    /// The bits of a floating-point number.
    pub open spec fn float_bits(self) -> Option<u64> {
        match self {
            JsonValue::Float(bits) => Some(bits),
            _ => None,
        }
    }

    /// The `i`-th element of an array, as `item` says.
    pub fn get(&self, i: usize) -> (r: Option<&JsonValue>)
        ensures
            r matches Some(v) ==> self.item(i as int) == Some(*v),
            r is None ==> self.item(i as int) is None,
    {
        match self {
            JsonValue::Array(items) => if i < items.len() {
                Some(&items[i])
            } else {
                None
            },
            _ => None,
        }
    }

    /// The elements of an array.
    pub fn as_array(&self) -> (r: Option<&Vec<JsonValue>>)
        ensures
            r matches Some(items) ==> self.array() == Some(items@),
            r is None ==> self.array() is None,
    {
        match self {
            JsonValue::Array(items) => Some(items),
            _ => None,
        }
    }

    /// The value of an integer.
    pub fn as_integer(&self) -> (r: Option<i64>)
        ensures
            r == self.integer(),
    {
        match self {
            JsonValue::Integer(n) => Some(*n),
            _ => None,
        }
    }

    /// The bits of a floating-point number.
    pub fn as_float_bits(&self) -> (r: Option<u64>)
        ensures
            r == self.float_bits(),
    {
        match self {
            JsonValue::Float(bits) => Some(*bits),
            _ => None,
        }
    }
}

} // verus!
