use crate::query_string::{encode_query, form_query, query_view};
use vstd::prelude::*;
use vstd::string::*;

pub use crate::query_string::Query;

verus! {

/// A command of the HTTP interface and its arguments, sent under `/d`.
#[derive(Clone, Debug)]
pub struct CommandQuery<'a> {
    command: String,
    arguments: Query<'a>,
}

/// The path of a command with its encoded arguments: `/d/<command>?<query>`.
pub open spec fn command_path(command: Seq<char>, query: Seq<char>) -> Seq<char> {
    "/d/"@ + command + "?"@ + query
}

impl<'a> CommandQuery<'a> {
    /// The name of the command.
    pub closed spec fn command(&self) -> Seq<char> {
        self.command@
    }

    /// The arguments, in order.
    pub closed spec fn arguments(&self) -> Seq<(Seq<char>, Seq<char>)> {
        query_view(self.arguments@)
    }

    /// The command `command` with no arguments.
    pub fn new(command: &str) -> (r: CommandQuery<'a>)
        ensures
            r.command() == command@,
            r.arguments() == Seq::<(Seq<char>, Seq<char>)>::empty(),
    {
        let arguments: Query = Vec::new();
        let r = CommandQuery { command: command.to_owned(), arguments };
        assert(r.arguments() =~= Seq::<(Seq<char>, Seq<char>)>::empty());
        r
    }

    /// The name of the command.
    pub fn get_command(&self) -> (r: String)
        ensures
            r@ == self.command(),
    {
        self.command.clone()
    }

    /// Replaces the arguments.
    pub fn set_argument(&mut self, arguments: Query<'a>)
        ensures
            final(self).command() == old(self).command(),
            final(self).arguments() == query_view(arguments@),
    {
        self.arguments = arguments;
    }

    /// The arguments as an URL-encoded query: `key=value` pairs joined with
    /// `&`.
    pub fn make_query(&self) -> (r: String)
        ensures
            r@ == form_query(self.arguments()),
    {
        encode_query(&self.arguments)
    }

    /// The path of the command: `/d/<command>?<query>`.
    pub fn encode(&self) -> (r: String)
        ensures
            r@ == command_path(self.command(), form_query(self.arguments())),
    {
        let mut path = String::from_str("/d/");
        path.append(self.command.as_str());
        path.append("?");
        let query = self.make_query();
        path.append(query.as_str());
        path
    }
}

} // verus!
