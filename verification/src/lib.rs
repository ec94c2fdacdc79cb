use vstd::prelude::*;

verus! {

/// The text of a greeting for `name`: the fixed template `"Hi, "` and `"!!!"`
/// around the name itself, with no character escaped, dropped or altered.
pub open spec fn greeting_text(name: Seq<char>) -> Seq<char> {
    "Hi, "@ + name + "!!!"@
}

/// Builds the greeting for `name`.
pub fn greeting(name: &str) -> (text: String)
    ensures
        text@ == greeting_text(name@),
{
    let mut text = String::from_str("Hi, ");
    text.append(name);
    text.append("!!!");
    text
}

/// The display calls that one greeting of `name` asks of the host:
/// exactly one, whose sole argument is the greeting text. The host shows
/// each entry in order and keeps no other observable result.
pub fn greeting_displays(name: &str) -> (calls: Vec<String>)
    ensures
        calls@.len() == 1,
        calls@[0]@ == greeting_text(name@),
{
    let mut calls: Vec<String> = Vec::new();
    calls.push(greeting(name));
    calls
}

} // verus!
