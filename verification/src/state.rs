use vstd::prelude::*;

verus! {

/// The lookahead that the adapter holds between two tokenizer callbacks.
#[derive(Clone, Copy, Debug, PartialEq, Eq, Structural)]
pub enum State {
    /// Nothing is pending.
    Ground,
    /// `Esc O` was seen: the next printable character is a function key.
    AwaitingSs3Char,
    /// `Esc [ [` was seen: the next printable character ends the sequence.
    AwaitingCsiBracketChar,
}

} // verus!
