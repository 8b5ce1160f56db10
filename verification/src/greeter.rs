//! A contract that starts with the fixed greeting, hands out the line to
//! greet with, and lets the greeting be replaced.

use vstd::prelude::*;

verus! {

/// The greeting of a new contract.
pub open spec fn default_greeting() -> Seq<char> {
    "Hello, World!"@
}

/// The line that a contract with the greeting `stored` greets with. It is
/// the greeting itself: whoever writes the line out ends it.
pub open spec fn greeting_line(stored: Seq<char>) -> Seq<char> {
    stored
}

/// The greeting once `new_greeting` has been set over `stored`: the whole
/// text is replaced, whatever was there before.
pub open spec fn greeting_set(stored: Seq<char>, new_greeting: Seq<char>) -> Seq<char> {
    new_greeting
}

/// Contract storage: one greeting.
pub struct HelloWorld {
    greeting: String,
}

impl View for HelloWorld {
    type V = Seq<char>;

    /// The stored greeting.
    closed spec fn view(&self) -> Seq<char> {
        self.greeting@
    }
}

impl Default for HelloWorld {
    /// Makes the contract with the fixed greeting.
    fn default() -> (contract: Self)
        ensures
            contract@ == default_greeting(),
    {
        HelloWorld { greeting: "Hello, World!".to_string() }
    }
}

impl HelloWorld {
    /// The stored greeting, borrowed.
    pub fn greeting(&self) -> (text: &str)
        ensures
            text@ == self@,
    {
        self.greeting.as_str()
    }

    /// Returns the line to write out as the greeting and leaves the contract
    /// as it is.
    pub fn greet(&self) -> (line: String)
        ensures
            line@ == greeting_line(self@),
    {
        self.greeting.clone()
    }

    /// Replaces the stored greeting with `new_greeting`.
    pub fn set_greeting(&mut self, new_greeting: String)
        ensures
            final(self)@ == greeting_set(old(self)@, new_greeting@),
    {
        self.greeting = new_greeting;
    }
}

/// A new contract greets with exactly the fixed greeting, character by
/// character.
pub proof fn lemma_default_greets_with_greeting()
    ensures
        greeting_line(default_greeting()) == "Hello, World!"@,
        greeting_line(default_greeting()) == seq![
            'H', 'e', 'l', 'l', 'o', ',', ' ', 'W', 'o', 'r', 'l', 'd', '!',
        ],
{
    reveal_strlit("Hello, World!");
    assert(default_greeting() =~= seq![
        'H', 'e', 'l', 'l', 'o', ',', ' ', 'W', 'o', 'r', 'l', 'd', '!',
    ]);
}

/// Setting a greeting and then greeting gives that greeting back, whatever
/// the contract held before.
pub proof fn lemma_set_then_greet(stored: Seq<char>, new_greeting: Seq<char>)
    ensures
        greeting_line(greeting_set(stored, new_greeting)) == new_greeting,
{
}

/// Setting the same greeting a second time changes nothing.
pub proof fn lemma_set_twice(stored: Seq<char>, new_greeting: Seq<char>)
    ensures
        greeting_set(greeting_set(stored, new_greeting), new_greeting) == greeting_set(
            stored,
            new_greeting,
        ),
{
}

/// Of two greetings set in a row the second is the one greeted with.
pub proof fn lemma_last_set_wins(stored: Seq<char>, first: Seq<char>, second: Seq<char>)
    ensures
        greeting_line(greeting_set(greeting_set(stored, first), second)) == second,
{
}

} // verus!
