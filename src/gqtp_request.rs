use crate::gqtp_header::{
    body_size_of, header_fault, parse_header, GQTP_HEADER_SIZE, GQTP_MAGIC,
};
use crate::text::IntoText;
use vstd::prelude::*;
use vstd::utf8::*;

verus! {

/// std's `io::Error`, carried unread in `GQTPError::IO`.
#[verifier::external_type_specification]
#[verifier::external_body]
pub struct ExIoError(std::io::Error);

/// std's `string::FromUtf8Error`, the error of `String::from_utf8`, carried
/// unread in `GQTPError::EncodingError`.
#[verifier::external_type_specification]
#[verifier::external_body]
pub struct ExFromUtf8Error(std::string::FromUtf8Error);

/// Why a GQTP exchange failed.
#[derive(Debug)]
pub enum GQTPError {
    /// The response header has a wrong magic byte, an out-of-range query
    /// type, or neither fragment flag.
    InvalidProtocol,
    /// The body does not have the size that the header declares.
    InvalidBodySize,
    /// The response header reports a status other than 0 and 1.
    StatusError(u16),
    /// Connecting, reading or writing failed.
    IO(std::io::Error),
    /// The response body is not UTF-8.
    EncodingError(std::string::FromUtf8Error),
}

impl From<std::io::Error> for GQTPError {
    fn from(err: std::io::Error) -> (r: GQTPError)
        ensures
            r == GQTPError::IO(err),
    {
        GQTPError::IO(err)
    }
}

impl vstd::std_specs::convert::FromSpecImpl<std::io::Error> for GQTPError {
    open spec fn obeys_from_spec() -> bool {
        true
    }

    open spec fn from_spec(v: std::io::Error) -> GQTPError {
        GQTPError::IO(v)
    }
}

impl From<std::string::FromUtf8Error> for GQTPError {
    fn from(err: std::string::FromUtf8Error) -> (r: GQTPError)
        ensures
            r == GQTPError::EncodingError(err),
    {
        GQTPError::EncodingError(err)
    }
}

impl vstd::std_specs::convert::FromSpecImpl<std::string::FromUtf8Error> for GQTPError {
    open spec fn obeys_from_spec() -> bool {
        true
    }

    open spec fn from_spec(v: std::string::FromUtf8Error) -> GQTPError {
        GQTPError::EncodingError(v)
    }
}

/// Size of the buffer that each read from the stream fills.
pub const RECV_BUF_SIZE: usize = 8192;

/// Address of the GQTP server used when none is set.
pub const DEFAULT_GQTP_ADDR: &'static str = "127.0.0.1:10043";

/// A client of a GQTP server.
pub struct GQTPRequest {
    addr: String,
}

impl Default for GQTPRequest {
    /// A client of the server at 127.0.0.1:10043.
    fn default() -> (r: GQTPRequest)
        ensures
            r.address() == DEFAULT_GQTP_ADDR@,
    {
        GQTPRequest { addr: DEFAULT_GQTP_ADDR.to_owned() }
    }
}

impl GQTPRequest {
    /// The address of the server.
    pub closed spec fn address(&self) -> Seq<char> {
        self.addr@
    }

    /// A client of the server at 127.0.0.1:10043.
    pub fn new() -> (r: GQTPRequest)
        ensures
            r.address() == DEFAULT_GQTP_ADDR@,
    {
        GQTPRequest::default()
    }

    /// Replaces the address of the server.
    pub fn with_addr<T: IntoText>(self, addr: T) -> (r: GQTPRequest)
        ensures
            r.address() == addr.text(),
    {
        GQTPRequest { addr: addr.into_text() }
    }

    /// The address of the server.
    pub fn addr(&self) -> (r: &str)
        ensures
            r@ == self.address(),
    {
        self.addr.as_str()
    }
}

/// Relies on `String::from_utf8`: `Ok` exactly when the bytes are valid
/// UTF-8, with a string made of those bytes.
#[verifier::external_body]
fn string_from_utf8(bytes: Vec<u8>) -> (r: Result<String, std::string::FromUtf8Error>)
    ensures
        r is Ok <==> valid_utf8(bytes@),
        r matches Ok(text) ==> encode_utf8(text@) == bytes@,
{
    String::from_utf8(bytes)
}

/// True when the bytes received so far decide the response: a whole header
/// that fails its checks, or a whole header followed by the whole body.
pub open spec fn response_complete(s: Seq<u8>) -> bool {
    &&& s.len() >= GQTP_HEADER_SIZE
    &&& header_fault(s) is Some || s.len() >= GQTP_HEADER_SIZE + body_size_of(s)
}

/// The body of a complete response whose header passed its checks.
pub open spec fn response_body(s: Seq<u8>) -> Seq<u8> {
    s.subrange(GQTP_HEADER_SIZE as int, GQTP_HEADER_SIZE + body_size_of(s))
}

/// The error of a stream that ended before the response was complete.
pub open spec fn truncation_error(s: Seq<u8>) -> GQTPError {
    if s.len() < GQTP_HEADER_SIZE {
        GQTPError::InvalidProtocol
    } else {
        GQTPError::InvalidBodySize
    }
}

/// What a complete response yields: the header's error, or the body as text.
pub open spec fn response_result(s: Seq<u8>, r: Result<String, GQTPError>) -> bool {
    match header_fault(s) {
        Some(e) => r == Err::<String, GQTPError>(e),
        None => match r {
            Ok(text) => valid_utf8(response_body(s)) && encode_utf8(text@) == response_body(s),
            Err(e) => !valid_utf8(response_body(s)) && e is EncodingError,
        },
    }
}

/// Reassembles one response from the chunks that the stream delivers.
pub struct Receiver {
    received: Vec<u8>,
}

/// What a receiver does after a chunk.
pub enum Step {
    /// The response is not complete: read another chunk and feed it to this
    /// receiver.
    More(Receiver),
    /// The exchange is over, with this result.
    Done(Result<String, GQTPError>),
}

impl View for Receiver {
    type V = Seq<u8>;

    /// Every byte received so far, in order.
    closed spec fn view(&self) -> Seq<u8> {
        self.received@
    }
}

impl Receiver {
    /// A receiver that has received nothing.
    pub fn new() -> (r: Receiver)
        ensures
            r@ == Seq::<u8>::empty(),
    {
        Receiver { received: Vec::new() }
    }

    /// Takes the next chunk read from the stream; an empty chunk means that
    /// the stream has ended.
    ///
    /// As soon as the bytes received decide the response, the result is the
    /// header's error or the body, `body_size` bytes after the header,
    /// decoded as UTF-8. A stream that ends before that gives
    /// `InvalidProtocol` while the header is incomplete, and
    /// `InvalidBodySize` after it.
    pub fn feed(self, chunk: &[u8]) -> (r: Step)
        ensures
            ({
                let s = self@ + chunk@;
                match r {
                    Step::More(next) => !response_complete(s) && chunk@.len() > 0 && next@ == s,
                    Step::Done(res) => if response_complete(s) {
                        response_result(s, res)
                    } else {
                        chunk@.len() == 0 && res == Err::<String, GQTPError>(truncation_error(s))
                    },
                }
            }),
            self@.len() + chunk@.len() >= GQTP_HEADER_SIZE && (self@ + chunk@)[0] != GQTP_MAGIC
                ==> r == Step::Done(Err(GQTPError::InvalidProtocol)),
    {
        let ghost s = self@ + chunk@;
        let mut received = self.received;
        received.extend_from_slice(chunk);
        assert(received@ =~= s);
        let n = received.len();
        if n < GQTP_HEADER_SIZE {
            if chunk.len() == 0 {
                return Step::Done(Err(GQTPError::InvalidProtocol));
            }
            return Step::More(Receiver { received });
        }
        match parse_header(received.as_slice()) {
            Err(e) => Step::Done(Err(e)),
            Ok(header) => {
                if (n as u64) < GQTP_HEADER_SIZE as u64 + header.body_size as u64 {
                    if chunk.len() == 0 {
                        return Step::Done(Err(GQTPError::InvalidBodySize));
                    }
                    return Step::More(Receiver { received });
                }
                let end = GQTP_HEADER_SIZE + header.body_size as usize;
                let body = vstd::slice::slice_to_vec(
                    vstd::slice::slice_subrange(received.as_slice(), GQTP_HEADER_SIZE, end),
                );
                assert(body@ == response_body(s));
                match string_from_utf8(body) {
                    Ok(text) => Step::Done(Ok(text)),
                    Err(e) => Step::Done(Err(GQTPError::EncodingError(e))),
                }
            }
        }
    }
}

/// However many reads delivered a response, once it is complete with a
/// header that passes its checks and a UTF-8 body, the text that comes out is
/// the whole body: its byte length is the body size that the header declares.
pub proof fn lemma_reassembled_text_has_body_size(s: Seq<u8>, r: Result<String, GQTPError>)
    requires
        response_complete(s),
        header_fault(s) is None,
        valid_utf8(response_body(s)),
        response_result(s, r),
    ensures
        r is Ok,
        encode_utf8(r->Ok_0@).len() == body_size_of(s),
{
}

} // verus!
