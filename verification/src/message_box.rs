//! A storage cell for one message, with a constructor that takes nothing,
//! a reader and a writer.

use ink_prelude::string::String;
use vstd::prelude::*;

verus! {

/// The message that a new cell holds.
pub open spec fn initial_message() -> Seq<char> {
    "Hello, World!"@
}

/// The message read from a cell that stores `stored`.
pub open spec fn message_read(stored: Seq<char>) -> Seq<char> {
    stored
}

/// The message stored once `new_value` has been written over `stored`:
/// the write replaces the whole text, whatever was there before.
pub open spec fn message_written(stored: Seq<char>, new_value: Seq<char>) -> Seq<char> {
    new_value
}

/// Contract storage: one message.
pub struct HelloWorld {
    value: String,
}

impl View for HelloWorld {
    type V = Seq<char>;

    /// The stored message.
    closed spec fn view(&self) -> Seq<char> {
        self.value@
    }
}

impl HelloWorld {
    /// Makes the cell with the fixed greeting in it.
    pub fn new() -> (cell: Self)
        ensures
            cell@ == initial_message(),
    {
        HelloWorld { value: "Hello, World!".to_string() }
    }

    /// Returns a copy of the stored message and leaves the cell as it is.
    pub fn get_message(&self) -> (message: String)
        ensures
            message@ == message_read(self@),
    {
        self.value.clone()
    }

    /// Replaces the stored message with `new_value`.
    pub fn set_message(&mut self, new_value: String)
        ensures
            final(self)@ == message_written(old(self)@, new_value@),
    {
        self.value = new_value;
    }
}

/// Reading a new cell gives exactly the fixed greeting, character by
/// character.
pub proof fn lemma_new_reads_greeting()
    ensures
        message_read(initial_message()) == "Hello, World!"@,
        message_read(initial_message()) == seq![
            'H', 'e', 'l', 'l', 'o', ',', ' ', 'W', 'o', 'r', 'l', 'd', '!',
        ],
{
    reveal_strlit("Hello, World!");
    assert(initial_message() =~= seq![
        'H', 'e', 'l', 'l', 'o', ',', ' ', 'W', 'o', 'r', 'l', 'd', '!',
    ]);
}

/// Writing a message and then reading gives that message back, whatever the
/// cell held before.
pub proof fn lemma_write_then_read(stored: Seq<char>, new_value: Seq<char>)
    ensures
        message_read(message_written(stored, new_value)) == new_value,
{
}

/// Writing the same message a second time changes nothing.
pub proof fn lemma_write_twice(stored: Seq<char>, new_value: Seq<char>)
    ensures
        message_written(message_written(stored, new_value), new_value) == message_written(
            stored,
            new_value,
        ),
{
}

/// Of two writes in a row the second decides what is read.
pub proof fn lemma_last_write_wins(stored: Seq<char>, first: Seq<char>, second: Seq<char>)
    ensures
        message_read(message_written(message_written(stored, first), second)) == second,
{
}

} // verus!
