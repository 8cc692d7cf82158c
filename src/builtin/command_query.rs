use crate::query_string::{encode_query, form_query, query_view};
use crate::text::IntoText;
use vstd::prelude::*;
use vstd::string::*;

pub use crate::query_string::Query;

verus! {

/// Path prefix of the HTTP interface used when none is set.
pub const DEFAULT_PREFIX: &'static str = "/d";

/// A command of the HTTP interface, its arguments and the path prefix it is
/// sent under.
#[derive(Clone, Debug)]
pub struct CommandQuery<'a> {
    command: String,
    arguments: Query<'a>,
    prefix: String,
}

/// The path of a command with its encoded arguments:
/// `<prefix>/<command>?<query>`.
pub open spec fn prefixed_command_path(prefix: Seq<char>, command: Seq<char>, query: Seq<char>) -> Seq<
    char,
> {
    prefix + "/"@ + command + "?"@ + query
}

impl<'a> Default for CommandQuery<'a> {
    /// An empty command with no arguments under the prefix `/d`.
    fn default() -> (r: CommandQuery<'a>)
        ensures
            r.command() == Seq::<char>::empty(),
            r.arguments() == Seq::<(Seq<char>, Seq<char>)>::empty(),
            r.prefix() == DEFAULT_PREFIX@,
    {
        let arguments: Query = Vec::new();
        let r = CommandQuery { command: String::new(), arguments, prefix: DEFAULT_PREFIX.to_owned() };
        assert(r.arguments() =~= Seq::<(Seq<char>, Seq<char>)>::empty());
        r
    }
}

impl<'a> CommandQuery<'a> {
    /// The name of the command.
    pub closed spec fn command(&self) -> Seq<char> {
        self.command@
    }

    /// The arguments, in order.
    pub closed spec fn arguments(&self) -> Seq<(Seq<char>, Seq<char>)> {
        query_view(self.arguments@)
    }

    /// The path prefix.
    pub closed spec fn prefix(&self) -> Seq<char> {
        self.prefix@
    }

    /// The command `command` with no arguments under the prefix `/d`.
    pub fn new<T: IntoText>(command: T) -> (r: CommandQuery<'a>)
        ensures
            r.command() == command.text(),
            r.arguments() == Seq::<(Seq<char>, Seq<char>)>::empty(),
            r.prefix() == DEFAULT_PREFIX@,
    {
        let base = CommandQuery::default();
        CommandQuery { command: command.into_text(), ..base }
    }

    /// The name of the command.
    pub fn get_command(&self) -> (r: &str)
        ensures
            r@ == self.command(),
    {
        self.command.as_str()
    }

    /// Replaces the arguments.
    pub fn set_argument(&mut self, arguments: Query<'a>)
        ensures
            final(self).command() == old(self).command(),
            final(self).prefix() == old(self).prefix(),
            final(self).arguments() == query_view(arguments@),
    {
        self.arguments = arguments;
    }

    /// The path prefix, `/d` unless replaced.
    pub fn get_prefix(&self) -> (r: &str)
        ensures
            r@ == self.prefix(),
    {
        self.prefix.as_str()
    }

    /// Replaces the path prefix.
    pub fn set_prefix<T: IntoText>(&mut self, prefix: T)
        ensures
            final(self).command() == old(self).command(),
            final(self).arguments() == old(self).arguments(),
            final(self).prefix() == prefix.text(),
    {
        self.prefix = prefix.into_text();
    }

    /// The arguments as an URL-encoded query: `key=value` pairs joined with
    /// `&`.
    pub fn make_query(&self) -> (r: String)
        ensures
            r@ == form_query(self.arguments()),
    {
        encode_query(&self.arguments)
    }

    /// The path of the command: `<prefix>/<command>?<query>`.
    pub fn encode(&self) -> (r: String)
        ensures
            r@ == prefixed_command_path(self.prefix(), self.command(), form_query(self.arguments())),
    {
        let mut path = self.prefix.clone();
        path.append("/");
        path.append(self.command.as_str());
        path.append("?");
        let query = self.make_query();
        path.append(query.as_str());
        path
    }
}

} // verus!
