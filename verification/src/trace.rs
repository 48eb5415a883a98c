use vstd::prelude::*;
use crate::model::{emitted, next_state, record, HandlerEvent, ParserEvent, SS3_FINAL};
use crate::state::State;

verus! {

/// The state after the events `events`, taken in order from `state`.
pub open spec fn state_after(bracket: bool, state: State, events: Seq<ParserEvent>) -> State
    decreases events.len(),
{
    if events.len() == 0 {
        state
    } else {
        next_state(bracket, state_after(bracket, state, events.drop_last()), events.last())
    }
}

/// The calls that the events `events` lead to, taken in order from `state`.
pub open spec fn calls_after(bracket: bool, state: State, events: Seq<ParserEvent>) -> Seq<
    HandlerEvent,
>
    decreases events.len(),
{
    if events.len() == 0 {
        Seq::empty()
    } else {
        record(
            calls_after(bracket, state, events.drop_last()),
            emitted(bracket, state_after(bracket, state, events.drop_last()), events.last()),
        )
    }
}

/// The escape sequence `Esc O`, as the tokenizer reports it.
pub open spec fn ss3_prefix(intermediates: Seq<u8>, ignore: bool) -> ParserEvent {
    ParserEvent::EscDispatch { intermediates, ignore, byte: SS3_FINAL }
}

/// Every event is either handed on, and then nothing is pending after it, or
/// held back as a prefix, and then exactly that prefix is pending: what was
/// pending before the event never outlives it.
pub proof fn lemma_pending_only_after_prefix(bracket: bool, state: State, event: ParserEvent)
    ensures
        emitted(bracket, state, event) is Some <==> next_state(bracket, state, event)
            == State::Ground,
        next_state(bracket, state, event) == State::AwaitingSs3Char ==> event is EscDispatch,
        next_state(bracket, state, event) == State::AwaitingCsiBracketChar ==> event
            is CsiDispatch,
{
}

/// A printable character always leads to exactly one call and leaves nothing
/// pending.
pub proof fn lemma_print_resolves(bracket: bool, state: State, c: char)
    ensures
        next_state(bracket, state, ParserEvent::Print(c)) == State::Ground,
        emitted(bracket, state, ParserEvent::Print(c)) is Some,
{
}

/// `Esc O` and a character `c` lead to the one call `ss3(c)` and leave nothing
/// pending, unless `Esc [ [` was pending before them.
pub proof fn lemma_ss3_key(
    bracket: bool,
    state: State,
    intermediates: Seq<u8>,
    ignore: bool,
    c: char,
)
    requires
        state != State::AwaitingCsiBracketChar,
    ensures
        calls_after(
            bracket,
            state,
            seq![ss3_prefix(intermediates, ignore), ParserEvent::Print(c)],
        ) == seq![HandlerEvent::Ss3(c)],
        state_after(
            bracket,
            state,
            seq![ss3_prefix(intermediates, ignore), ParserEvent::Print(c)],
        ) == State::Ground,
{
    let events = seq![ss3_prefix(intermediates, ignore), ParserEvent::Print(c)];
    let first = seq![ss3_prefix(intermediates, ignore)];
    assert(events.drop_last() == first);
    assert(first.drop_last() == Seq::<ParserEvent>::empty());
    reveal_with_fuel(state_after, 3);
    reveal_with_fuel(calls_after, 3);
}

/// Events taken in two runs, the second from the state that the first left,
/// lead to the same state and the same calls as the events taken in one run.
pub proof fn lemma_after_concat(
    bracket: bool,
    state: State,
    first: Seq<ParserEvent>,
    second: Seq<ParserEvent>,
)
    ensures
        state_after(bracket, state, first + second) == state_after(
            bracket,
            state_after(bracket, state, first),
            second,
        ),
        calls_after(bracket, state, first + second) == calls_after(bracket, state, first)
            + calls_after(bracket, state_after(bracket, state, first), second),
    decreases second.len(),
{
    if second.len() == 0 {
        assert(first + second == first);
    } else {
        lemma_after_concat(bracket, state, first, second.drop_last());
        assert((first + second).drop_last() == first + second.drop_last());
        assert((first + second).last() == second.last());
    }
}

/// Two function keys sent one after the other lead to two calls, one for each
/// key and in their order, and leave nothing pending.
pub proof fn lemma_ss3_keys_stay_apart(bracket: bool, state: State, c1: char, c2: char)
    requires
        state != State::AwaitingCsiBracketChar,
    ensures
        calls_after(
            bracket,
            state,
            seq![
                ss3_prefix(Seq::empty(), false),
                ParserEvent::Print(c1),
                ss3_prefix(Seq::empty(), false),
                ParserEvent::Print(c2),
            ],
        ) == seq![HandlerEvent::Ss3(c1), HandlerEvent::Ss3(c2)],
        state_after(
            bracket,
            state,
            seq![
                ss3_prefix(Seq::empty(), false),
                ParserEvent::Print(c1),
                ss3_prefix(Seq::empty(), false),
                ParserEvent::Print(c2),
            ],
        ) == State::Ground,
{
    let prefix = ss3_prefix(Seq::empty(), false);
    let first = seq![prefix, ParserEvent::Print(c1)];
    let second = seq![prefix, ParserEvent::Print(c2)];
    lemma_ss3_key(bracket, state, Seq::empty(), false, c1);
    lemma_ss3_key(bracket, State::Ground, Seq::empty(), false, c2);
    lemma_after_concat(bracket, state, first, second);
    assert(first + second == seq![
        prefix,
        ParserEvent::Print(c1),
        prefix,
        ParserEvent::Print(c2),
    ]);
    assert(seq![HandlerEvent::Ss3(c1)] + seq![HandlerEvent::Ss3(c2)] == seq![
        HandlerEvent::Ss3(c1),
        HandlerEvent::Ss3(c2),
    ]);
}

/// A printable character other than DEL that comes when nothing is pending
/// leads to the one call `print(c)`.
pub proof fn lemma_plain_print(bracket: bool, c: char)
    requires
        c != '\x7F',
    ensures
        emitted(bracket, State::Ground, ParserEvent::Print(c)) == Some(HandlerEvent::Print(c)),
        calls_after(bracket, State::Ground, seq![ParserEvent::Print(c)]) == seq![
            HandlerEvent::Print(c),
        ],
        state_after(bracket, State::Ground, seq![ParserEvent::Print(c)]) == State::Ground,
{
    let events = seq![ParserEvent::Print(c)];
    assert(events.drop_last() == Seq::<ParserEvent>::empty());
    reveal_with_fuel(state_after, 2);
    reveal_with_fuel(calls_after, 2);
}

/// A printable character other than DEL that follows an event which was
/// handed on, and so was no prefix, leads to the one call `print(c)`.
pub proof fn lemma_print_after_forwarded(bracket: bool, state: State, before: ParserEvent, c: char)
    requires
        c != '\x7F',
        emitted(bracket, state, before) is Some,
    ensures
        emitted(bracket, next_state(bracket, state, before), ParserEvent::Print(c)) == Some(
            HandlerEvent::Print(c),
        ),
{
}

} // verus!
