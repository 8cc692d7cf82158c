//! Builders of the commands that the server understands.

pub mod command_query;
