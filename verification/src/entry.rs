//! The stateless entry point: what a start of the program writes out and the
//! status it ends with. Writing the line is the caller's part.

use vstd::prelude::*;

verus! {

/// The line that a start writes out.
pub open spec fn start_line() -> Seq<char> {
    "Hello, World!"@
}

/// What one start of the program amounts to.
pub struct Outcome {
    /// The line to write out.
    pub line: String,
    /// The status to hand back to the host.
    pub status: u64,
}

/// Starts the program: the fixed line, and status 0.
pub fn run() -> (outcome: Outcome)
    ensures
        outcome.line@ == start_line(),
        outcome.status == 0,
{
    Outcome { line: "Hello, World!".to_string(), status: 0 }
}

/// The line of a start is exactly the fixed greeting, character by
/// character.
pub proof fn lemma_start_line_is_greeting()
    ensures
        start_line() == seq!['H', 'e', 'l', 'l', 'o', ',', ' ', 'W', 'o', 'r', 'l', 'd', '!'],
{
    reveal_strlit("Hello, World!");
    assert(start_line() =~= seq![
        'H', 'e', 'l', 'l', 'o', ',', ' ', 'W', 'o', 'r', 'l', 'd', '!',
    ]);
}

} // verus!
