//! Small talk.

use vstd::prelude::*;
use vstd::string::*;

verus! {

/// The greeting for `author`, signed with the assistant's name.
pub open spec fn greeting_text(author: Seq<char>, name: Seq<char>) -> Seq<char> {
    "Hi "@ + author + ", I'm "@ + name + "!"@
}

/// Greets `author`, given as the text that mentions them, in the name of the
/// server `name`.
pub fn greeting(author: &str, name: &str) -> (text: String)
    ensures
        text@ == greeting_text(author@, name@),
{
    let mut text = String::from_str("Hi ");
    text.append(author);
    text.append(", I'm ");
    text.append(name);
    text.append("!");
    text
}

} // verus!
