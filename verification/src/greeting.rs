//! The greeter: a total, pure function from an optional name to a greeting.

use vstd::prelude::*;
use vstd::string::*;

verus! {

/// The name substituted when the caller supplies none, or an empty one.
pub open spec fn default_name() -> Seq<char> {
    "World"@
}

/// The name that actually appears in the greeting: the given one when it is
/// present and non-empty, the default otherwise.
pub open spec fn effective_name(name: Option<Seq<char>>) -> Seq<char> {
    match name {
        Some(n) => if n.len() > 0 {
            n
        } else {
            default_name()
        },
        None => default_name(),
    }
}

/// The greeting produced for an optional name.
pub open spec fn spec_greet(name: Option<Seq<char>>) -> Seq<char> {
    "Hello "@ + effective_name(name) + "!"@
}

/// Builds the greeting for `name`: `"Hello <name>!"`, with `"World"` standing
/// in when `name` is absent or empty. Total: every string, empty, unicode or
/// punctuation-laden, is accepted.
pub fn greet(name: Option<String>) -> (r: String)
    ensures
        r@ == spec_greet(name.deep_view()),
{
    let mut out = String::from_str("Hello ");
    match &name {
        Some(n) => {
            if n.as_str().unicode_len() > 0 {
                out.append(n.as_str());
            } else {
                out.append("World");
            }
        },
        None => {
            out.append("World");
        },
    }
    out.append("!");
    out
}

/// The greeter is stateless: the greeting is a function of the name alone,
/// so repeated invocations on the same input always yield the same output.
pub proof fn lemma_greet_deterministic(name: Option<Seq<char>>, r1: Seq<char>, r2: Seq<char>)
    requires
        r1 == spec_greet(name),
        r2 == spec_greet(name),
    ensures
        r1 == r2,
{
}

} // verus!
