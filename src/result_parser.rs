use crate::json_value::JsonValue;
use vstd::prelude::*;

verus! {

/// The value at index `i` of an optional value.
pub open spec fn item_of(v: Option<JsonValue>, i: int) -> Option<JsonValue> {
    match v {
        Some(v) => v.item(i),
        None => None,
    }
}

/// The header of a response: the first element of the root.
pub open spec fn response_header(root: JsonValue) -> Option<JsonValue> {
    root.item(0)
}

/// The status code: the integer first in the header.
pub open spec fn response_status(root: JsonValue) -> Option<i64> {
    match item_of(response_header(root), 0) {
        Some(v) => v.integer(),
        None => None,
    }
}

/// A floating-point number of the header, as its bits.
pub open spec fn header_float(root: JsonValue, i: int) -> Option<u64> {
    match item_of(response_header(root), i) {
        Some(v) => v.float_bits(),
        None => None,
    }
}

/// The payload of a successful response: the first element of the body,
/// `[[matched_count], column_metadata, row_1, row_2, ...]`.
pub open spec fn success_payload(root: JsonValue) -> Option<JsonValue> {
    item_of(root.item(1), 0)
}

/// The error payload of a failed response: the fourth element of the header.
pub open spec fn error_payload(root: JsonValue) -> Option<JsonValue> {
    item_of(response_header(root), 3)
}

/// The number of matched records of a successful response: the last element
/// of the first element of its payload.
pub open spec fn matched_count(root: JsonValue) -> Option<i64> {
    match item_of(success_payload(root), 0) {
        Some(v) => match v.array() {
            Some(items) => if items.len() > 0 {
                items.last().integer()
            } else {
                None
            },
            None => None,
        },
        None => None,
    }
}

/// What the rows accessor yields, as the single element of a sequence: on
/// success the payload; on any other status the error payload, or `Null`
/// where the header carries no fourth element (an in-progress response);
/// `None` where the status is missing, or on success where the payload is.
pub open spec fn response_rows(root: JsonValue) -> Option<JsonValue> {
    match response_status(root) {
        Some(0) => success_payload(root),
        Some(_) => match error_payload(root) {
            Some(e) => Some(e),
            None => Some(JsonValue::Null),
        },
        None => None,
    }
}

/// The column metadata of a row sequence: the second element of its first
/// element, an array.
pub open spec fn column_metadata(data: Option<Seq<&JsonValue>>) -> Option<Seq<JsonValue>> {
    match data {
        Some(rows) => if rows.len() > 0 {
            match rows[0].item(1) {
                Some(v) => v.array(),
                None => None,
            }
        } else {
            None
        },
        None => None,
    }
}

/// A sequence of rows taken from a response.
#[derive(Clone, Debug)]
pub struct Rows<'a> {
    data: Option<Vec<&'a JsonValue>>,
}

impl<'a> Rows<'a> {
    /// The rows.
    pub closed spec fn data(&self) -> Option<Seq<&'a JsonValue>> {
        match self.data {
            Some(v) => Some(v@),
            None => None,
        }
    }

    /// Rows holding `data`.
    pub fn new(data: Option<Vec<&'a JsonValue>>) -> (r: Rows<'a>)
        ensures
            r.data() == (match data {
                Some(v) => Some(v@),
                None => None::<Seq<&'a JsonValue>>,
            }),
    {
        Rows { data }
    }

    /// The column metadata: the array second in the first element, which in
    /// a successful response is `[[name, type], ...]`; `None` where the shape
    /// differs.
    pub fn columns(&self) -> (r: Option<&'a Vec<JsonValue>>)
        ensures
            r matches Some(v) ==> column_metadata(self.data()) == Some(v@),
            r is None ==> column_metadata(self.data()) is None,
    {
        let rows = match &self.data {
            Some(v) => v,
            None => return None,
        };
        if rows.len() == 0 {
            return None;
        }
        let first: &'a JsonValue = rows[0];
        match first.get(1) {
            Some(v) => v.as_array(),
            None => None,
        }
    }
}

/// A response of the server, decoded, with accessors that know its shape:
/// `[[status, start_time, elapsed_time, error?], body]`.
#[derive(Debug)]
pub struct ResultParser {
    result: Box<JsonValue>,
}

impl ResultParser {
    /// The decoded response.
    pub closed spec fn root(&self) -> JsonValue {
        *self.result
    }

    /// A view of the decoded response `result`.
    pub fn new(result: JsonValue) -> (r: ResultParser)
        ensures
            r.root() == result,
    {
        ResultParser { result: Box::new(result) }
    }

    /// The decoded response.
    pub fn get_raw_object(&self) -> (r: &JsonValue)
        ensures
            *r == self.root(),
    {
        &self.result
    }

    /// The header: the first element of the root.
    pub fn get_header(&self) -> (r: Option<&JsonValue>)
        ensures
            r matches Some(v) ==> response_header(self.root()) == Some(*v),
            r is None ==> response_header(self.root()) is None,
    {
        self.result.get(0)
    }

    /// The status code: 0 on success, 1 while in progress, anything else on
    /// error; `None` where the root is not shaped as a response.
    pub fn status(&self) -> (r: Option<i64>)
        ensures
            r == response_status(self.root()),
    {
        match self.result.get(0) {
            Some(header) => match header.get(0) {
                Some(v) => v.as_integer(),
                None => None,
            },
            None => None,
        }
    }

    fn header_float(&self, i: usize) -> (r: Option<u64>)
        ensures
            r == header_float(self.root(), i as int),
    {
        match self.result.get(0) {
            Some(header) => match header.get(i) {
                Some(v) => v.as_float_bits(),
                None => None,
            },
            None => None,
        }
    }

    /// When the server started the command, as the bits of an IEEE 754
    /// binary64 number (`f64::from_bits` reads it).
    pub fn start_time(&self) -> (r: Option<u64>)
        ensures
            r == header_float(self.root(), 1),
    {
        self.header_float(1)
    }

    /// How long the command took, in seconds, as the bits of an IEEE 754
    /// binary64 number (`f64::from_bits` reads it).
    pub fn elapsed_time(&self) -> (r: Option<u64>)
        ensures
            r == header_float(self.root(), 2),
    {
        self.header_float(2)
    }

    fn success_payload(&self) -> (r: Option<&JsonValue>)
        ensures
            r matches Some(v) ==> success_payload(self.root()) == Some(*v),
            r is None ==> success_payload(self.root()) is None,
    {
        match self.result.get(1) {
            Some(body) => body.get(0),
            None => None,
        }
    }

    fn matched_columns_num(&self) -> (r: Option<i64>)
        ensures
            r == matched_count(self.root()),
    {
        let counts = match self.success_payload() {
            Some(payload) => match payload.get(0) {
                Some(v) => v.as_array(),
                None => None,
            },
            None => None,
        };
        match counts {
            Some(items) => if items.len() > 0 {
                items[items.len() - 1].as_integer()
            } else {
                None
            },
            None => None,
        }
    }

    /// The number of matched records, defined on success only: `None` when
    /// the status is not 0 or the payload is not shaped as a success.
    pub fn matched_columns(&self) -> (r: Option<i64>)
        ensures
            response_status(self.root()) == Some(0i64) ==> r == matched_count(self.root()),
            response_status(self.root()) != Some(0i64) ==> r is None,
    {
        match self.status() {
            Some(0) => self.matched_columns_num(),
            _ => None,
        }
    }

    /// The rows: on success a sequence holding the payload
    /// `[[matched_count], column_metadata, row_1, ...]`; on any other status a
    /// sequence holding the error payload, the fourth element of the header,
    /// or `Null` where the header has none (an in-progress response). `None`
    /// where the status is missing, or on success where the payload is.
    pub fn result(&self) -> (r: Option<Vec<&JsonValue>>)
        ensures
            r matches Some(v) ==> v@.len() == 1 && response_rows(self.root()) == Some(*v@[0]),
            r is None ==> response_rows(self.root()) is None,
            response_status(self.root()) is Some && response_status(self.root()) != Some(0i64)
                ==> r is Some,
    {
        let chosen = match self.status() {
            Some(0) => self.success_payload(),
            Some(_) => match self.result.get(0) {
                Some(header) => match header.get(3) {
                    Some(message) => Some(message),
                    None => Some(&JsonValue::Null),
                },
                None => None,
            },
            None => None,
        };
        match chosen {
            Some(v) => {
                let mut rows: Vec<&JsonValue> = Vec::new();
                rows.push(v);
                Some(rows)
            },
            None => None,
        }
    }

    /// The rows of `result`, as a `Rows`: a one-element sequence on any
    /// status other than 0, as `result` says.
    pub fn into_row(&self) -> (r: Rows<'_>)
        ensures
            r.data() matches Some(d) ==> d.len() == 1 && response_rows(self.root()) == Some(*d[0]),
            r.data() is None ==> response_rows(self.root()) is None,
            response_status(self.root()) is Some && response_status(self.root()) != Some(0i64)
                ==> r.data() is Some,
    {
        Rows::new(self.result())
    }
}

/// Reading a response is pure: two views of the same decoded response give
/// the same answer to every accessor, however often each is asked.
pub proof fn lemma_same_tree_same_answers(a: ResultParser, b: ResultParser)
    requires
        a.root() == b.root(),
    ensures
        response_header(a.root()) == response_header(b.root()),
        response_status(a.root()) == response_status(b.root()),
        header_float(a.root(), 1) == header_float(b.root(), 1),
        header_float(a.root(), 2) == header_float(b.root(), 2),
        matched_count(a.root()) == matched_count(b.root()),
        response_rows(a.root()) == response_rows(b.root()),
{
}

} // verus!
