//! Whole runs of a request, and what holds of every one of them.
//!
//! A run is a start state and the events that a driver reports, one after the
//! other. Before each report the driver has performed the action of the state
//! in which the request then stood.

use crate::buffer::{holds_sentinel, terminated, text_bytes};
use crate::decode::decode_spec;
use crate::error::Error;
use crate::pipeline::{action_of, awaits, step_spec, ActionView, EventView, StateView};
use crate::request::CallView;
use vstd::prelude::*;

verus! {

/// The state in which the run of `events` from `state` ends.
pub open spec fn run_spec(state: StateView, events: Seq<EventView>) -> StateView
    decreases events.len(),
{
    if events.len() == 0 {
        state
    } else {
        run_spec(step_spec(state, events.first()), events.drop_first())
    }
}

/// Whether each event of the run is the report that the state before it
/// waits for.
pub open spec fn in_turn(state: StateView, events: Seq<EventView>) -> bool
    decreases events.len(),
{
    events.len() == 0 || (awaits(state, events.first()) && in_turn(
        step_spec(state, events.first()),
        events.drop_first(),
    ))
}

/// How often the bridge is called in the run: once for each event that is
/// reported in `Marshalled`, where the action is to invoke.
pub open spec fn invocations(state: StateView, events: Seq<EventView>) -> nat
    decreases events.len(),
{
    if events.len() == 0 {
        0
    } else {
        let here: nat = if state is Marshalled {
            1
        } else {
            0
        };
        here + invocations(step_spec(state, events.first()), events.drop_first())
    }
}

/// How often a text is printed in the run: once for each event that is
/// reported in `Decoded`, where the action is to print.
pub open spec fn printings(state: StateView, events: Seq<EventView>) -> nat
    decreases events.len(),
{
    if events.len() == 0 {
        0
    } else {
        let here: nat = if state is Decoded {
            1
        } else {
            0
        };
        here + printings(step_spec(state, events.first()), events.drop_first())
    }
}

/// Whether `after` is the state that comes next after `before` in the life of
/// a request.
pub open spec fn comes_next(before: StateView, after: StateView) -> bool {
    ||| before is Idle && after is Loaded
    ||| before is Loaded && after is Marshalled
    ||| before is Marshalled && after is Invoked
    ||| before is Invoked && after is Decoded
    ||| before is Decoded && after is Done
}

/// The states follow each other strictly: an awaited event moves the request
/// to the very next state or fails it, and any other event leaves it where it
/// is. A request fails only where the configuration cannot be read, a field
/// cannot be marshalled, or the response cannot be decoded.
pub proof fn lemma_step_is_sequential(state: StateView, event: EventView)
    ensures
        awaits(state, event) ==> comes_next(state, step_spec(state, event)) || step_spec(
            state,
            event,
        ) is Failed,
        !awaits(state, event) ==> step_spec(state, event) == state,
        awaits(state, event) && step_spec(state, event) is Failed ==> {
            ||| state is Idle && event is ConfigUnreadable && step_spec(state, event)
                == (StateView::Failed { error: Error::Io })
            ||| (state is Loaded || state is Invoked) && step_spec(state, event)
                == (StateView::Failed { error: Error::Encoding })
        },
{
}

/// How many steps a request in `state` has before it at most.
pub open spec fn steps_left(state: StateView) -> nat {
    match state {
        StateView::Idle { .. } => 5,
        StateView::Loaded { .. } => 4,
        StateView::Marshalled { .. } => 3,
        StateView::Invoked { .. } => 2,
        StateView::Decoded { .. } => 1,
        StateView::Done => 0,
        StateView::Failed { .. } => 0,
    }
}

/// No state comes twice: a run whose events come in turn is no longer than
/// the steps that its first state has left, five from `Idle`.
pub proof fn lemma_run_never_turns_back(state: StateView, events: Seq<EventView>)
    requires
        in_turn(state, events),
    ensures
        events.len() + steps_left(run_spec(state, events)) <= steps_left(state),
    decreases events.len(),
{
    if events.len() > 0 {
        lemma_run_never_turns_back(step_spec(state, events.first()), events.drop_first());
    }
}

/// `Done` and `Failed` are final: no event leads out of them, and neither a
/// call of the bridge nor a printing follows them.
pub proof fn lemma_ended_is_final(state: StateView, events: Seq<EventView>)
    requires
        state is Done || state is Failed,
    ensures
        run_spec(state, events) == state,
        invocations(state, events) == 0,
        printings(state, events) == 0,
    decreases events.len(),
{
    if events.len() > 0 {
        lemma_ended_is_final(state, events.drop_first());
    }
}

/// Once the bridge has returned, it is not called again.
pub proof fn lemma_no_second_call(state: StateView, events: Seq<EventView>)
    requires
        state is Invoked || state is Decoded || state is Done || state is Failed,
    ensures
        invocations(state, events) == 0,
    decreases events.len(),
{
    if events.len() > 0 {
        lemma_no_second_call(step_spec(state, events.first()), events.drop_first());
    }
}

/// In a run whose events come in turn the bridge is called at most once, and
/// exactly once where the run starts before the call and ends after the
/// bridge has returned.
pub proof fn lemma_bridge_is_called_once(state: StateView, events: Seq<EventView>)
    requires
        in_turn(state, events),
    ensures
        invocations(state, events) <= 1,
        (state is Idle || state is Loaded || state is Marshalled) && (run_spec(state, events)
            is Invoked || run_spec(state, events) is Decoded || run_spec(state, events) is Done)
            ==> invocations(state, events) == 1,
    decreases events.len(),
{
    if events.len() > 0 {
        let next = step_spec(state, events.first());
        let rest = events.drop_first();
        if state is Marshalled {
            lemma_no_second_call(next, rest);
        } else if next is Failed {
            lemma_ended_is_final(next, rest);
        } else {
            lemma_bridge_is_called_once(next, rest);
            if !(state is Idle || state is Loaded) {
                lemma_no_second_call(state, events);
            }
        }
    }
}

/// Nothing is printed of a request that fails, and the text of one that
/// succeeds is printed once: in a run whose events come in turn and that
/// starts before the printing, there is no printing where the run ends in
/// `Failed`, and exactly one where it ends in `Done`.
pub proof fn lemma_failure_prints_nothing(state: StateView, events: Seq<EventView>)
    requires
        in_turn(state, events),
        !(state is Done),
    ensures
        printings(state, events) <= 1,
        run_spec(state, events) is Failed ==> printings(state, events) == 0,
        run_spec(state, events) is Done ==> printings(state, events) == 1,
    decreases events.len(),
{
    if events.len() > 0 {
        let next = step_spec(state, events.first());
        let rest = events.drop_first();
        if next is Done || next is Failed {
            lemma_ended_is_final(next, rest);
        } else {
            lemma_failure_prints_nothing(next, rest);
        }
    }
}

/// Whether one of the texts that `state` holds for the bridge holds the
/// sentinel.
pub open spec fn holds_unencodable_text(state: StateView) -> bool {
    match state {
        StateView::Idle { method, path, body, .. } => {
            ||| holds_sentinel(text_bytes(method))
            ||| holds_sentinel(text_bytes(path))
            ||| holds_sentinel(text_bytes(body))
        },
        StateView::Loaded { config, method, path, body } => {
            ||| holds_sentinel(text_bytes(config))
            ||| holds_sentinel(text_bytes(method))
            ||| holds_sentinel(text_bytes(path))
            ||| holds_sentinel(text_bytes(body))
        },
        _ => false,
    }
}

/// A request with a text that holds the sentinel is rejected before the
/// bridge: marshalling fails it with an encoding error, and whatever is
/// reported, in turn or not, the bridge is never called and nothing is
/// printed.
pub proof fn lemma_sentinel_never_reaches_bridge(state: StateView, events: Seq<EventView>)
    requires
        holds_unencodable_text(state),
    ensures
        state is Loaded ==> step_spec(state, EventView::Continue) == (StateView::Failed {
            error: Error::Encoding,
        }),
        run_spec(state, events) is Idle || run_spec(state, events) is Loaded || run_spec(
            state,
            events,
        ) is Failed,
        invocations(state, events) == 0,
        printings(state, events) == 0,
    decreases events.len(),
{
    if events.len() > 0 {
        let next = step_spec(state, events.first());
        if next is Failed {
            lemma_ended_is_final(next, events.drop_first());
        } else {
            lemma_sentinel_never_reaches_bridge(next, events.drop_first());
        }
    }
}

/// A configuration that cannot be read fails the request with an I/O error,
/// and the bridge is not called, whatever is reported afterwards.
pub proof fn lemma_unreadable_config_never_reaches_bridge(
    state: StateView,
    events: Seq<EventView>,
)
    requires
        state is Idle,
    ensures
        ({
            let failed = StateView::Failed { error: Error::Io };
            let reports = seq![EventView::ConfigUnreadable] + events;
            &&& step_spec(state, EventView::ConfigUnreadable) == failed
            &&& action_of(failed) == (ActionView::Abort { error: Error::Io })
            &&& run_spec(state, reports) == failed
            &&& invocations(state, reports) == 0
            &&& printings(state, reports) == 0
        }),
{
    let failed = StateView::Failed { error: Error::Io };
    let reports = seq![EventView::ConfigUnreadable] + events;
    assert(reports.drop_first() == events);
    lemma_ended_is_final(failed, events);
}

/// The bridge gets the four fields in the order config, method, path, body,
/// whatever they hold: once the configuration is loaded and the fields are
/// marshalled, the call to make carries first the terminated bytes of the
/// content of the configuration, then those of the method, of the path and of
/// the body of the request.
pub proof fn lemma_fields_keep_their_order(
    config_path: Seq<char>,
    config: Seq<char>,
    method: Seq<char>,
    path: Seq<char>,
    body: Seq<char>,
)
    requires
        !holds_sentinel(text_bytes(config)),
        !holds_sentinel(text_bytes(method)),
        !holds_sentinel(text_bytes(path)),
        !holds_sentinel(text_bytes(body)),
    ensures
        action_of(
            run_spec(
                StateView::Idle { config_path, method, path, body },
                seq![EventView::ConfigLoaded { content: config }, EventView::Continue],
            ),
        ) == (ActionView::Invoke {
            call: CallView {
                config: terminated(text_bytes(config)),
                method: terminated(text_bytes(method)),
                path: terminated(text_bytes(path)),
                body: terminated(text_bytes(body)),
            },
        }),
{
    let idle = StateView::Idle { config_path, method, path, body };
    let loaded = StateView::Loaded { config, method, path, body };
    let events = seq![EventView::ConfigLoaded { content: config }, EventView::Continue];
    let rest = seq![EventView::Continue];
    assert(events.drop_first() == rest);
    assert(run_spec(loaded, rest) == run_spec(
        step_spec(loaded, EventView::Continue),
        rest.drop_first(),
    ));
}

/// What the bridge returns is all that decides the end of a call: a response
/// that decodes is printed as the text that it decodes to, and one that does
/// not fails the request with the error of the decoding.
pub proof fn lemma_response_is_printed_verbatim(call: CallView, response: Seq<u8>)
    ensures
        action_of(
            run_spec(
                StateView::Marshalled { call },
                seq![EventView::BridgeReturned { response }, EventView::Continue],
            ),
        ) == match decode_spec(response) {
            Ok(text) => ActionView::Print { text },
            Err(error) => ActionView::Abort { error },
        },
{
    let marshalled = StateView::Marshalled { call };
    let invoked = StateView::Invoked { response };
    let events = seq![EventView::BridgeReturned { response }, EventView::Continue];
    let rest = seq![EventView::Continue];
    assert(events.drop_first() == rest);
    assert(run_spec(invoked, rest) == run_spec(
        step_spec(invoked, EventView::Continue),
        rest.drop_first(),
    ));
}

} // verus!
