use vstd::prelude::*;
use crate::state::State;

verus! {

/// One callback of the tokenizer, as a value.
pub enum ParserEvent {
    /// A printable character was decoded.
    Print(char),
    /// A control byte was decoded outside of any escape sequence.
    Execute(u8),
    /// An escape sequence ended with the byte `byte`.
    EscDispatch { intermediates: Seq<u8>, ignore: bool, byte: u8 },
    /// A control sequence ended with the character `last`.
    CsiDispatch { params: Seq<Seq<u16>>, intermediates: Seq<u8>, ignore: bool, last: char },
}

/// One call on the handler, as a value.
pub enum HandlerEvent {
    /// A function key reported as `Esc O` and a character.
    Ss3(char),
    /// A printable character.
    Print(char),
    /// A control byte.
    Execute(u8),
    /// An escape sequence that ended with the byte `byte`.
    EscDispatch { intermediates: Seq<u8>, ignore: bool, byte: u8 },
    /// A control sequence that ended with the character `last`.
    CsiDispatch { params: Seq<Seq<u16>>, intermediates: Seq<u8>, ignore: bool, last: char },
}

/// The code of DEL, which terminals send for the Backspace key.
pub const DEL: u8 = 0x7F;

/// The final byte of the escape sequence `Esc O`.
pub const SS3_FINAL: u8 = 0x4F;

/// Whether a control sequence is only the prefix `Esc [ [` of a function key
/// of the Linux console. The parameters are not looked at.
pub open spec fn is_bracket_prefix(intermediates: Seq<u8>, ignore: bool, last: char) -> bool {
    last == '[' && intermediates.len() == 0 && !ignore
}

/// The state after `event`, given the state before it. `bracket` says whether
/// the rule for `Esc [ [` is in force.
pub open spec fn next_state(bracket: bool, state: State, event: ParserEvent) -> State {
    match event {
        ParserEvent::Print(_) => State::Ground,
        ParserEvent::Execute(_) => State::Ground,
        ParserEvent::EscDispatch { byte, .. } => {
            if byte == SS3_FINAL && state != State::AwaitingCsiBracketChar {
                State::AwaitingSs3Char
            } else {
                State::Ground
            }
        },
        ParserEvent::CsiDispatch { intermediates, ignore, last, .. } => {
            if bracket && is_bracket_prefix(intermediates, ignore, last) {
                State::AwaitingCsiBracketChar
            } else {
                State::Ground
            }
        },
    }
}

/// The call that `event` leads to, if any, given the state before it.
pub open spec fn emitted(bracket: bool, state: State, event: ParserEvent) -> Option<HandlerEvent> {
    match event {
        ParserEvent::Print(c) => {
            match state {
                State::AwaitingSs3Char => Some(HandlerEvent::Ss3(c)),
                State::AwaitingCsiBracketChar => Some(
                    HandlerEvent::CsiDispatch {
                        params: Seq::empty(),
                        intermediates: Seq::empty(),
                        ignore: false,
                        last: c,
                    },
                ),
                State::Ground => {
                    if c == '\x7F' {
                        Some(HandlerEvent::Execute(DEL))
                    } else {
                        Some(HandlerEvent::Print(c))
                    }
                },
            }
        },
        ParserEvent::Execute(b) => Some(HandlerEvent::Execute(b)),
        ParserEvent::EscDispatch { intermediates, ignore, byte } => {
            if byte == SS3_FINAL && state != State::AwaitingCsiBracketChar {
                None
            } else {
                Some(HandlerEvent::EscDispatch { intermediates, ignore, byte })
            }
        },
        ParserEvent::CsiDispatch { params, intermediates, ignore, last } => {
            if bracket && is_bracket_prefix(intermediates, ignore, last) {
                None
            } else {
                Some(HandlerEvent::CsiDispatch { params, intermediates, ignore, last })
            }
        },
    }
}

/// The calls on the handler after one more event: `calls`, and behind it the
/// call that the event led to, if it led to one.
pub open spec fn record(calls: Seq<HandlerEvent>, call: Option<HandlerEvent>) -> Seq<HandlerEvent> {
    match call {
        Some(e) => calls.push(e),
        None => calls,
    }
}

} // verus!
