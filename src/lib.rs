//! Client for a document-store / search-engine server, reachable over HTTP
//! and over the binary GQTP protocol.
//!
//! - `URIBase`, `RequestURI` and the `CommandQuery` builders make the URLs of
//!   the HTTP interface.
//! - `encode_request` frames a command for GQTP, and `Receiver` reassembles a
//!   response from however many reads the stream needs.
//! - `ResultParser` reads a decoded response through its protocol-defined
//!   shape.

pub mod builtin;
pub mod command_query;
mod gqtp_header;
mod gqtp_request;
mod json_value;
mod query_string;
mod request_uri;
mod result_parser;
mod text;
mod uri_base;

pub use gqtp_header::{
    encode_request, parse_header, ResponseHeader, FLAG_HEAD, FLAG_TAIL, GQTP_HEADER_SIZE,
    GQTP_MAGIC, MAX_QUERY_TYPE,
};
pub use gqtp_request::{
    GQTPError, GQTPRequest, Receiver, Step, DEFAULT_GQTP_ADDR, RECV_BUF_SIZE,
};
pub use json_value::JsonValue;
pub use query_string::Query;
pub use request_uri::RequestURI;
pub use result_parser::{ResultParser, Rows};
pub use text::IntoText;
pub use uri_base::{URIBase, DEFAULT_HOST, DEFAULT_HTTP_PORT};
