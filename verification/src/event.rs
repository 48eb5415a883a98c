use vstd::prelude::*;
use crate::model::{
    emitted, is_bracket_prefix, next_state, record, HandlerEvent, ParserEvent, DEL, SS3_FINAL,
};
use crate::params::Params;
use crate::state::State;

verus! {

/// What an application does with keyboard input. Every method has a body that
/// does nothing, so an application writes only the ones it cares about.
pub trait Handler: Sized {
    /// A function key reported as `Esc O` and a character.
    fn ss3(&mut self, _c: char)
        default_ensures
            *final(self) == *old(self),
    {
    }

    /// A printable character.
    fn print(&mut self, _c: char)
        default_ensures
            *final(self) == *old(self),
    {
    }

    /// A control character (Tab, Enter, Backspace, ...).
    fn execute(&mut self, _b: u8)
        default_ensures
            *final(self) == *old(self),
    {
    }

    /// Alt and a character, or Shift and Tab.
    fn esc_dispatch(&mut self, _intermediates: &[u8], _ignore: bool, _b: u8)
        default_ensures
            *final(self) == *old(self),
    {
    }

    /// A control sequence.
    fn csi_dispatch(&mut self, _params: &Params, _intermediates: &[u8], _ignore: bool, _c: char)
        default_ensures
            *final(self) == *old(self),
    {
    }
}

/// The callbacks of the tokenizer, made one at a time and in stream order.
pub trait Perform {
    /// A printable character was decoded.
    fn print(&mut self, c: char);

    /// A control byte was decoded outside of any escape sequence.
    fn execute(&mut self, b: u8);

    /// A control sequence ended with the character `c`.
    fn csi_dispatch(&mut self, params: &Params, intermediates: &[u8], ignore: bool, c: char);

    /// An escape sequence ended with the byte `b`.
    fn esc_dispatch(&mut self, intermediates: &[u8], ignore: bool, b: u8);
}

/// Takes the tokenizer's callbacks and calls a [`Handler`] with what the keys
/// meant, holding back at most one callback to tell a prefix from a key.
///
/// A handler's own methods promise nothing, so what a callback does to the
/// handler is stated through `calls`: a ghost record that grows by one entry
/// with each call made on the handler, and only then.
pub struct Performer<'h, H: Handler> {
    handler: &'h mut H,
    state: State,
    bracket: bool,
    calls: Ghost<Seq<HandlerEvent>>,
}

impl<'h, H: Handler> Performer<'h, H> {
    /// The pending lookahead.
    pub closed spec fn pending(&self) -> State {
        self.state
    }

    /// Whether `Esc [ [` is taken as the prefix of a function key.
    pub closed spec fn bracket_rule(&self) -> bool {
        self.bracket
    }

    /// The calls made on the handler so far, oldest first.
    pub closed spec fn calls(&self) -> Seq<HandlerEvent> {
        self.calls@
    }

    /// The handler as it is now.
    pub closed spec fn handler(&self) -> H {
        *self.handler
    }

    /// The pending lookahead.
    pub fn state(&self) -> (r: State)
        ensures
            r == self.pending(),
    {
        self.state
    }

    fn emit_ss3(&mut self, c: char)
        ensures
            final(self).calls() == old(self).calls().push(HandlerEvent::Ss3(c)),
            final(self).pending() == old(self).pending(),
            final(self).bracket_rule() == old(self).bracket_rule(),
    {
        self.handler.ss3(c);
        proof {
            self.calls@ = self.calls@.push(HandlerEvent::Ss3(c));
        }
    }

    fn emit_print(&mut self, c: char)
        ensures
            final(self).calls() == old(self).calls().push(HandlerEvent::Print(c)),
            final(self).pending() == old(self).pending(),
            final(self).bracket_rule() == old(self).bracket_rule(),
    {
        self.handler.print(c);
        proof {
            self.calls@ = self.calls@.push(HandlerEvent::Print(c));
        }
    }

    fn emit_execute(&mut self, b: u8)
        ensures
            final(self).calls() == old(self).calls().push(HandlerEvent::Execute(b)),
            final(self).pending() == old(self).pending(),
            final(self).bracket_rule() == old(self).bracket_rule(),
    {
        self.handler.execute(b);
        proof {
            self.calls@ = self.calls@.push(HandlerEvent::Execute(b));
        }
    }

    fn emit_esc(&mut self, intermediates: &[u8], ignore: bool, b: u8)
        ensures
            final(self).calls() == old(self).calls().push(
                HandlerEvent::EscDispatch { intermediates: intermediates@, ignore, byte: b },
            ),
            final(self).pending() == old(self).pending(),
            final(self).bracket_rule() == old(self).bracket_rule(),
    {
        self.handler.esc_dispatch(intermediates, ignore, b);
        proof {
            self.calls@ = self.calls@.push(
                HandlerEvent::EscDispatch { intermediates: intermediates@, ignore, byte: b },
            );
        }
    }

    fn emit_csi(&mut self, params: &Params, intermediates: &[u8], ignore: bool, c: char)
        ensures
            final(self).calls() == old(self).calls().push(
                HandlerEvent::CsiDispatch {
                    params: params@,
                    intermediates: intermediates@,
                    ignore,
                    last: c,
                },
            ),
            final(self).pending() == old(self).pending(),
            final(self).bracket_rule() == old(self).bracket_rule(),
    {
        self.handler.csi_dispatch(params, intermediates, ignore, c);
        proof {
            self.calls@ = self.calls@.push(
                HandlerEvent::CsiDispatch {
                    params: params@,
                    intermediates: intermediates@,
                    ignore,
                    last: c,
                },
            );
        }
    }
}

/// An adapter in front of `h` with nothing pending, which takes `Esc [ [` as
/// the prefix of a function key.
pub fn new<'h, H: Handler>(h: &'h mut H) -> (r: Performer<'h, H>)
    ensures
        r.handler() == *old(h),
        r.pending() == State::Ground,
        r.bracket_rule(),
        r.calls() == Seq::<HandlerEvent>::empty(),
{
    Performer { handler: h, state: State::Ground, bracket: true, calls: Ghost(Seq::empty()) }
}

/// An adapter in front of `h` with nothing pending, which takes `Esc [ [` as
/// the prefix of a function key if `bracket` is set, and else hands every
/// control sequence on as it came.
pub fn with_bracket_rule<'h, H: Handler>(h: &'h mut H, bracket: bool) -> (r: Performer<'h, H>)
    ensures
        r.handler() == *old(h),
        r.pending() == State::Ground,
        r.bracket_rule() == bracket,
        r.calls() == Seq::<HandlerEvent>::empty(),
{
    Performer { handler: h, state: State::Ground, bracket, calls: Ghost(Seq::empty()) }
}

impl<'h, H: Handler> Perform for Performer<'h, H> {
    fn print(&mut self, c: char)
        ensures
            final(self).pending() == next_state(
                old(self).bracket_rule(),
                old(self).pending(),
                ParserEvent::Print(c),
            ),
            final(self).calls() == record(
                old(self).calls(),
                emitted(old(self).bracket_rule(), old(self).pending(), ParserEvent::Print(c)),
            ),
            final(self).bracket_rule() == old(self).bracket_rule(),
    {
        let pending = self.state;
        self.state = State::Ground;
        match pending {
            State::AwaitingSs3Char => {
                self.emit_ss3(c);
            },
            State::AwaitingCsiBracketChar => {
                let empty: &[u8] = &[];
                assert(empty@ == Seq::<u8>::empty());
                self.emit_csi(&Params::default(), empty, false, c);
            },
            State::Ground => {
                if c == '\x7F' {
                    self.emit_execute(DEL);
                } else {
                    self.emit_print(c);
                }
            },
        }
    }

    fn execute(&mut self, b: u8)
        ensures
            final(self).pending() == next_state(
                old(self).bracket_rule(),
                old(self).pending(),
                ParserEvent::Execute(b),
            ),
            final(self).calls() == record(
                old(self).calls(),
                emitted(old(self).bracket_rule(), old(self).pending(), ParserEvent::Execute(b)),
            ),
            final(self).bracket_rule() == old(self).bracket_rule(),
    {
        self.state = State::Ground;
        self.emit_execute(b);
    }

    fn csi_dispatch(&mut self, params: &Params, intermediates: &[u8], ignore: bool, c: char)
        ensures
            final(self).pending() == next_state(
                old(self).bracket_rule(),
                old(self).pending(),
                ParserEvent::CsiDispatch {
                    params: params@,
                    intermediates: intermediates@,
                    ignore,
                    last: c,
                },
            ),
            final(self).calls() == record(
                old(self).calls(),
                emitted(
                    old(self).bracket_rule(),
                    old(self).pending(),
                    ParserEvent::CsiDispatch {
                        params: params@,
                        intermediates: intermediates@,
                        ignore,
                        last: c,
                    },
                ),
            ),
            final(self).bracket_rule() == old(self).bracket_rule(),
            old(self).bracket_rule() && is_bracket_prefix(intermediates@, ignore, c)
                ==> final(self).handler() == old(self).handler(),
    {
        if self.bracket && c == '[' && intermediates.len() == 0 && !ignore {
            self.state = State::AwaitingCsiBracketChar;
        } else {
            self.state = State::Ground;
            self.emit_csi(params, intermediates, ignore, c);
        }
    }

    fn esc_dispatch(&mut self, intermediates: &[u8], ignore: bool, b: u8)
        ensures
            final(self).pending() == next_state(
                old(self).bracket_rule(),
                old(self).pending(),
                ParserEvent::EscDispatch { intermediates: intermediates@, ignore, byte: b },
            ),
            final(self).calls() == record(
                old(self).calls(),
                emitted(
                    old(self).bracket_rule(),
                    old(self).pending(),
                    ParserEvent::EscDispatch { intermediates: intermediates@, ignore, byte: b },
                ),
            ),
            final(self).bracket_rule() == old(self).bracket_rule(),
            b == SS3_FINAL && old(self).pending() != State::AwaitingCsiBracketChar
                ==> final(self).handler() == old(self).handler(),
    {
        let bracket_pending = match self.state {
            State::AwaitingCsiBracketChar => true,
            _ => false,
        };
        if b == SS3_FINAL && !bracket_pending {
            self.state = State::AwaitingSs3Char;
        } else {
            self.state = State::Ground;
            self.emit_esc(intermediates, ignore, b);
        }
    }
}

} // verus!
