//! The greeting, as a function on sequences of characters, and the
//! executable function that builds it.

use vstd::prelude::*;

verus! {

/// The greeting owed to `name`.
///
/// An empty name is greeted as the world. Any other name is placed,
/// character for character, between the salutation and the exclamation
/// mark; nothing in it is escaped, trimmed or otherwise changed.
pub open spec fn greeting_for(name: Seq<char>) -> Seq<char> {
    if name.len() == 0 {
        "Hello, World!"@
    } else {
        "Hello, "@ + name + "!"@
    }
}

/// Every greeting has at least one character, and its last character is
/// the exclamation mark.
pub proof fn lemma_greeting_ends_with_exclamation(name: Seq<char>)
    ensures
        greeting_for(name).len() > 0,
        greeting_for(name).last() == '!',
        "!"@.is_suffix_of(greeting_for(name)),
{
    reveal_strlit("Hello, World!");
    reveal_strlit("Hello, ");
    reveal_strlit("!");
}

/// Greeting is deterministic: whenever two names hold the same characters,
/// whatever is a greeting for the one equals whatever is a greeting for the
/// other. Two calls of [`greet`] on the same name therefore return strings
/// of identical content.
pub proof fn lemma_greeting_deterministic(
    first_name: Seq<char>,
    first_greeting: Seq<char>,
    second_name: Seq<char>,
    second_greeting: Seq<char>,
)
    requires
        first_name == second_name,
        first_greeting == greeting_for(first_name),
        second_greeting == greeting_for(second_name),
    ensures
        first_greeting == second_greeting,
{
}

/// Returns the greeting for `name`.
///
/// Total: every `&str` is accepted, the empty one included, and a fresh
/// `String` is returned. Nothing is read or written besides.
pub fn greet(name: &str) -> (greeting: String)
    ensures
        greeting@ == greeting_for(name@),
        name@.len() == 0 ==> greeting@ == "Hello, World!"@,
        name@.len() > 0 ==> greeting@ == "Hello, "@ + name@ + "!"@,
        greeting@.len() > 0,
        greeting@.last() == '!',
        "!"@.is_suffix_of(greeting@),
{
    proof {
        lemma_greeting_ends_with_exclamation(name@);
    }
    if name.is_empty() {
        "Hello, World!".to_string()
    } else {
        let mut greeting = "Hello, ".to_string();
        greeting.append(name);
        greeting.append("!");
        greeting
    }
}

} // verus!
