//! A contract that is handed its message when it is made, or takes the fixed
//! greeting, and echoes the message back on request. Nothing rewrites it.

use vstd::prelude::*;

verus! {

/// The message of a contract made without one.
pub open spec fn default_message() -> Seq<char> {
    "Hello, World!"@
}

/// The message of a contract made with `message`.
pub open spec fn message_given(message: Seq<char>) -> Seq<char> {
    message
}

/// What a contract that stores `stored` echoes.
pub open spec fn message_echoed(stored: Seq<char>) -> Seq<char> {
    stored
}

/// Contract storage: one message.
pub struct HelloWorld {
    message: String,
}

impl View for HelloWorld {
    type V = Seq<char>;

    /// The stored message.
    closed spec fn view(&self) -> Seq<char> {
        self.message@
    }
}

impl Default for HelloWorld {
    /// Makes the contract with the fixed greeting as its message.
    fn default() -> (contract: Self)
        ensures
            contract@ == default_message(),
    {
        HelloWorld { message: "Hello, World!".to_string() }
    }
}

impl HelloWorld {
    /// Makes the contract with `message` stored as it came: every text is
    /// taken, the empty one too.
    pub fn new(message: String) -> (contract: Self)
        ensures
            contract@ == message_given(message@),
    {
        HelloWorld { message }
    }

    /// Returns a copy of the stored message and leaves the contract as it is.
    pub fn echo(&self) -> (message: String)
        ensures
            message@ == message_echoed(self@),
    {
        self.message.clone()
    }
}

/// A contract made without a message echoes exactly the fixed greeting,
/// character by character.
pub proof fn lemma_default_echoes_greeting()
    ensures
        message_echoed(default_message()) == "Hello, World!"@,
        message_echoed(default_message()) == seq![
            'H', 'e', 'l', 'l', 'o', ',', ' ', 'W', 'o', 'r', 'l', 'd', '!',
        ],
{
    reveal_strlit("Hello, World!");
    assert(default_message() =~= seq![
        'H', 'e', 'l', 'l', 'o', ',', ' ', 'W', 'o', 'r', 'l', 'd', '!',
    ]);
}

/// A contract made with a message echoes that message.
pub proof fn lemma_new_then_echo(message: Seq<char>)
    ensures
        message_echoed(message_given(message)) == message,
{
}

} // verus!
