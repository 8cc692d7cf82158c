use crate::text::{decimal, push_decimal, IntoText};
use vstd::prelude::*;
use vstd::string::*;

verus! {

/// Host name used when none is set.
pub const DEFAULT_HOST: &'static str = "localhost";

/// Port of the HTTP interface used when none is set.
pub const DEFAULT_HTTP_PORT: u16 = 10041;

/// Builder of the base URI of the HTTP interface: `http://<host>:<port>`.
#[derive(Clone, Debug)]
pub struct URIBase {
    base_uri: String,
    port: u16,
}

/// The base URI for a host and a port.
pub open spec fn base_uri_text(host: Seq<char>, port: u16) -> Seq<char> {
    "http://"@ + host + ":"@ + decimal(port as nat)
}

impl Default for URIBase {
    /// Host `localhost`, port 10041.
    fn default() -> (r: URIBase)
        ensures
            r.host() == DEFAULT_HOST@,
            r.port_number() == DEFAULT_HTTP_PORT,
    {
        URIBase { base_uri: DEFAULT_HOST.to_owned(), port: DEFAULT_HTTP_PORT }
    }
}

impl URIBase {
    /// The host of the URI.
    pub closed spec fn host(&self) -> Seq<char> {
        self.base_uri@
    }

    /// The port of the URI.
    pub closed spec fn port_number(&self) -> u16 {
        self.port
    }

    /// A builder with the defaults: host `localhost`, port 10041.
    pub fn new() -> (r: URIBase)
        ensures
            r.host() == DEFAULT_HOST@,
            r.port_number() == DEFAULT_HTTP_PORT,
    {
        URIBase::default()
    }

    /// Replaces the host.
    pub fn base_uri<T: IntoText>(self, base_uri: T) -> (r: URIBase)
        ensures
            r.host() == base_uri.text(),
            r.port_number() == self.port_number(),
    {
        URIBase { base_uri: base_uri.into_text(), port: self.port }
    }

    /// Replaces the port.
    pub fn port(self, port: u16) -> (r: URIBase)
        ensures
            r.host() == self.host(),
            r.port_number() == port,
    {
        URIBase { base_uri: self.base_uri, port }
    }

    /// The base URI, `http://<host>:<port>`.
    pub fn build(self) -> (r: String)
        ensures
            r@ == base_uri_text(self.host(), self.port_number()),
    {
        let mut s = String::from_str("http://");
        s.append(self.base_uri.as_str());
        s.append(":");
        push_decimal(&mut s, self.port);
        proof {
            assert(s@ =~= base_uri_text(self.host(), self.port_number()));
        }
        s
    }
}

} // verus!
