//! A convenience layer over git: shorthand subcommands whose workflows are
//! verified state machines.
//!
//! Each workflow starts from a command ([`cli::start`]) and then, given the
//! reply to each action it asks for ([`flow::Flow::next`]), decides the next
//! one: an invocation of git, a read-only query, a prompt, or the end. The
//! caller performs the actions. The library also parses git's status and
//! branch listings ([`status`]) and turns a failure's error text into a
//! message with a hint ([`hint`]).
pub mod branch;
pub mod cli;
pub mod commit;
pub mod flow;
pub mod hint;
pub mod remote;
pub mod reset;
pub mod stage;
pub mod status;
pub mod text;
