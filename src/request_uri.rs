use crate::text::IntoText;
use vstd::prelude::*;
use vstd::string::*;

verus! {

/// A request URL of the HTTP interface: a base URI and the path of a command.
#[derive(Clone, Debug)]
pub struct RequestURI {
    base: String,
    query: String,
}

impl RequestURI {
    /// The base URI.
    pub closed spec fn base(&self) -> Seq<char> {
        self.base@
    }

    /// The path of the command.
    pub closed spec fn query(&self) -> Seq<char> {
        self.query@
    }

    /// The URL made of `base` followed by `query`.
    pub fn new<T: IntoText>(base: T, query: T) -> (r: RequestURI)
        ensures
            r.base() == base.text(),
            r.query() == query.text(),
    {
        RequestURI { base: base.into_text(), query: query.into_text() }
    }

    /// The URL: the base URI followed by the path of the command.
    pub fn url(self) -> (r: String)
        ensures
            r@ == self.base() + self.query(),
    {
        let mut url = self.base;
        url.append(self.query.as_str());
        url
    }
}

} // verus!
