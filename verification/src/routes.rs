//! What the web surface answers.

use vstd::prelude::*;
use vstd::string::*;

verus! {

/// The greeting of the API of the server called `name`.
pub open spec fn api_greeting_text(name: Seq<char>) -> Seq<char> {
    "Hello from the "@ + name + " API!"@
}

/// What the API answers at its root: a greeting in the name of the server.
pub fn api_greeting(name: &str) -> (text: String)
    ensures
        text@ == api_greeting_text(name@),
{
    let mut text = String::from_str("Hello from the ");
    text.append(name);
    text.append(" API!");
    text
}

} // verus!
