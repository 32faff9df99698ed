//! Subcommand dispatch: the rule that maps the first positional argument to
//! a program mode. Reading the process arguments, printing help and exiting
//! belong to the binary; the decision itself is here.

use vstd::prelude::*;
use vstd::string::*;

verus! {

/// The two program modes.
#[derive(Clone, Copy, Debug, PartialEq, Eq, Structural)]
pub enum Command {
    /// Print one greeting line and exit.
    Hello,
    /// Run the greeting web server until the process is stopped.
    Webserver,
}

/// The dispatch rule: `"hello"` and `"webserver"` select their mode; any
/// other token, or no token at all, selects nothing (the caller then shows
/// help and exits non-zero).
pub open spec fn spec_parse_subcommand(arg: Option<Seq<char>>) -> Option<Command> {
    match arg {
        Some(s) => if s == "hello"@ {
            Some(Command::Hello)
        } else if s == "webserver"@ {
            Some(Command::Webserver)
        } else {
            None
        },
        None => None,
    }
}

/// Maps the first positional argument to a `Command`, returning `None` for a
/// missing or unrecognized subcommand.
pub fn parse_subcommand(arg: Option<&String>) -> (r: Option<Command>)
    ensures
        r == spec_parse_subcommand(match arg {
            Some(s) => Some(s@),
            None => None,
        }),
{
    match arg {
        Some(s) => {
            if *s == String::from_str("hello") {
                Some(Command::Hello)
            } else if *s == String::from_str("webserver") {
                Some(Command::Webserver)
            } else {
                None
            }
        },
        None => None,
    }
}

} // verus!
