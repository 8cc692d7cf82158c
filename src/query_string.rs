use vstd::prelude::*;
use vstd::utf8::*;

verus! {

/// Arguments of a command: `(key, value)` pairs, in order.
pub type Query<'a> = Vec<(&'a str, &'a str)>;

/// The arguments as pairs of character sequences.
pub open spec fn query_view(q: Seq<(&str, &str)>) -> Seq<(Seq<char>, Seq<char>)> {
    q.map_values(|p: (&str, &str)| (p.0@, p.1@))
}

/// Bytes that the form encoding keeps as they are: ASCII letters and digits,
/// `*`, `-`, `.` and `_`.
pub open spec fn form_unchanged(b: u8) -> bool {
    ||| b == 0x2a
    ||| b == 0x2d
    ||| b == 0x2e
    ||| 0x30 <= b <= 0x39
    ||| 0x41 <= b <= 0x5a
    ||| b == 0x5f
    ||| 0x61 <= b <= 0x7a
}

/// The upper-case hexadecimal digit of `d` (`0 <= d < 16`).
pub open spec fn hex_digit(d: int) -> char {
    if d < 10 {
        ((48 + d) as u32) as char
    } else {
        ((55 + d) as u32) as char
    }
}

/// The form encoding of one byte: itself if unchanged, `+` for a space,
/// otherwise `%` and two upper-case hexadecimal digits.
pub open spec fn form_escape_byte(b: u8) -> Seq<char> {
    if form_unchanged(b) {
        seq![(b as u32) as char]
    } else if b == 0x20 {
        seq!['+']
    } else {
        seq!['%', hex_digit(b as int / 16), hex_digit(b as int % 16)]
    }
}

/// The form encoding of a byte sequence, byte by byte.
pub open spec fn form_escape_bytes(bytes: Seq<u8>) -> Seq<char>
    decreases bytes.len(),
{
    if bytes.len() == 0 {
        seq![]
    } else {
        form_escape_byte(bytes[0]) + form_escape_bytes(bytes.drop_first())
    }
}

/// The `application/x-www-form-urlencoded` encoding of a text: the encoding
/// of its UTF-8 bytes.
pub open spec fn form_escaped(s: Seq<char>) -> Seq<char> {
    form_escape_bytes(encode_utf8(s))
}

/// One argument as `key=value`, both encoded.
pub open spec fn form_pair(p: (Seq<char>, Seq<char>)) -> Seq<char> {
    form_escaped(p.0) + seq!['='] + form_escaped(p.1)
}

/// The encoded arguments joined with `&`.
pub open spec fn form_query(pairs: Seq<(Seq<char>, Seq<char>)>) -> Seq<char>
    decreases pairs.len(),
{
    if pairs.len() == 0 {
        seq![]
    } else if pairs.len() == 1 {
        form_pair(pairs[0])
    } else {
        form_query(pairs.drop_last()) + seq!['&'] + form_pair(pairs.last())
    }
}

/// Relies on url's `form_urlencoded::Serializer`, started on an empty string,
/// `extend_pairs` with the arguments, then `finish`: each pair becomes
/// `key=value`, both sides encoded byte by byte as `form_escape_byte` says
/// (`byte_serialize`), with `&` between pairs.
#[verifier::external_body]
pub(crate) fn encode_query(arguments: &Query) -> (r: String)
    ensures
        r@ == form_query(query_view(arguments@)),
{
    url::form_urlencoded::Serializer::new(String::new()).extend_pairs(arguments.iter()).finish()
}

} // verus!
