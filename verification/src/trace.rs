//! What holds of a session over whole sequences of inputs.

use crate::display::{law_event_line_is_safe, law_event_line_suits_raw_mode, summary_lines};
use crate::sanitize::{law_sanitize_safe, sanitized, terminal_safe};
use crate::session::{
    emitted, initial, is_active, is_summary, next, Channel, Config, Input, Notification,
    SessionModel,
};
use crate::stats::{
    count_of, counters_positive, is_snapshot, law_arrival_order_is_immaterial,
    law_snapshot_unique, tally, KindStats,
};
use vstd::prelude::*;

verus! {

/// The session after the inputs of `inputs`, first to last.
pub open spec fn run(s: SessionModel, inputs: Seq<Input>) -> SessionModel
    decreases inputs.len(),
{
    if inputs.len() == 0 {
        s
    } else {
        next(run(s, inputs.drop_last()), inputs.last())
    }
}

/// What the inputs of `inputs` bring out, with one place for each input.
pub open spec fn transcript(s: SessionModel, inputs: Seq<Input>) -> Seq<
    Option<(Channel, Seq<char>)>,
>
    decreases inputs.len(),
{
    if inputs.len() == 0 {
        Seq::empty()
    } else {
        transcript(s, inputs.drop_last()).push(
            emitted(run(s, inputs.drop_last()), inputs.last()),
        )
    }
}

/// Whether `input` is the notification of an event.
pub open spec fn is_event(input: Input) -> bool {
    input matches Input::Notification(Notification::Event(_))
}

/// Whether `input` is the notification of an event of kind `kind`.
pub open spec fn is_event_of(input: Input, kind: u64) -> bool {
    input matches Input::Notification(Notification::Event(event)) && event.kind == kind
}

/// How many events of kind `kind` among `inputs` find the session active,
/// when it starts in state `s`.
pub open spec fn accepted(s: SessionModel, inputs: Seq<Input>, kind: u64) -> nat
    decreases inputs.len(),
{
    if inputs.len() == 0 {
        0
    } else {
        let before = accepted(s, inputs.drop_last(), kind);
        if is_active(run(s, inputs.drop_last())) && is_event_of(inputs.last(), kind) {
            before + 1
        } else {
            before
        }
    }
}

/// The kinds of the events among `inputs`, in their order.
pub open spec fn event_kinds(inputs: Seq<Input>) -> Seq<u64>
    decreases inputs.len(),
{
    if inputs.len() == 0 {
        Seq::empty()
    } else {
        match inputs.last() {
            Input::Notification(Notification::Event(event)) => event_kinds(
                inputs.drop_last(),
            ).push(event.kind),
            _ => event_kinds(inputs.drop_last()),
        }
    }
}

/// The transcript has one place per input.
pub proof fn law_transcript_length(s: SessionModel, inputs: Seq<Input>)
    ensures
        transcript(s, inputs).len() == inputs.len(),
    decreases inputs.len(),
{
    if inputs.len() > 0 {
        law_transcript_length(s, inputs.drop_last());
    }
}

/// Once the session is terminated no input changes it, neither its state nor
/// its counters, and no input brings out a line.
pub proof fn law_terminated_is_final(s: SessionModel, inputs: Seq<Input>)
    requires
        s.state.terminated,
    ensures
        run(s, inputs) == s,
        transcript(s, inputs).len() == inputs.len(),
        forall|i: int| 0 <= i < inputs.len() ==> #[trigger] transcript(s, inputs)[i] is None,
    decreases inputs.len(),
{
    if inputs.len() > 0 {
        law_terminated_is_final(s, inputs.drop_last());
    }
}

/// Termination is never taken back, and the configuration never changes.
pub proof fn law_termination_is_permanent(s: SessionModel, inputs: Seq<Input>)
    ensures
        s.state.terminated ==> run(s, inputs).state.terminated,
        run(s, inputs).config == s.config,
    decreases inputs.len(),
{
    if inputs.len() > 0 {
        law_termination_is_permanent(s, inputs.drop_last());
    }
}

/// A counter stands as much higher after a run as events of its kind found
/// the session active: what arrives while it is paused, or after it has
/// terminated, adds nothing.
pub proof fn law_counter_is_accepted_events(s: SessionModel, inputs: Seq<Input>, kind: u64)
    ensures
        count_of(run(s, inputs).counts, kind) == count_of(s.counts, kind) + accepted(
            s,
            inputs,
            kind,
        ),
    decreases inputs.len(),
{
    if inputs.len() > 0 {
        law_counter_is_accepted_events(s, inputs.drop_last(), kind);
    }
}

/// While the session is active, each event of a kind raises the counter of
/// that kind by one: after `n` of them it stands `n` higher. The other
/// counters and the state stay as they were.
pub proof fn law_active_events_are_counted(s: SessionModel, inputs: Seq<Input>, kind: u64)
    requires
        is_active(s),
        forall|i: int| 0 <= i < inputs.len() ==> is_event_of(#[trigger] inputs[i], kind),
    ensures
        count_of(run(s, inputs).counts, kind) == count_of(s.counts, kind) + inputs.len(),
        forall|other: u64|
            other != kind ==> count_of(run(s, inputs).counts, other) == count_of(s.counts, other),
        run(s, inputs).state == s.state,
    decreases inputs.len(),
{
    if inputs.len() > 0 {
        law_active_events_are_counted(s, inputs.drop_last(), kind);
    }
}

/// While the session is paused, events pass without a trace: nothing is
/// counted and nothing is shown.
pub proof fn law_paused_events_are_dropped(s: SessionModel, inputs: Seq<Input>)
    requires
        s.state.paused,
        forall|i: int| 0 <= i < inputs.len() ==> is_event(#[trigger] inputs[i]),
    ensures
        run(s, inputs) == s,
        transcript(s, inputs).len() == inputs.len(),
        forall|i: int| 0 <= i < inputs.len() ==> #[trigger] transcript(s, inputs)[i] is None,
    decreases inputs.len(),
{
    if inputs.len() > 0 {
        law_paused_events_are_dropped(s, inputs.drop_last());
    }
}

/// No input lowers a counter or removes one, and a counter that exists is at
/// least one.
pub proof fn law_counters_only_grow(s: SessionModel, inputs: Seq<Input>, kind: u64)
    ensures
        count_of(run(s, inputs).counts, kind) >= count_of(s.counts, kind),
        s.counts.contains_key(kind) ==> run(s, inputs).counts.contains_key(kind),
        counters_positive(s.counts) ==> counters_positive(run(s, inputs).counts),
    decreases inputs.len(),
{
    if inputs.len() > 0 {
        law_counters_only_grow(s, inputs.drop_last(), kind);
    }
}

/// A session that is given events only, from its start, holds the tally of
/// their kinds.
pub proof fn law_fresh_session_tallies(config: Config, inputs: Seq<Input>)
    requires
        forall|i: int| 0 <= i < inputs.len() ==> is_event(#[trigger] inputs[i]),
    ensures
        run(initial(config), inputs).counts == tally(event_kinds(inputs)),
        run(initial(config), inputs).state == initial(config).state,
    decreases inputs.len(),
{
    if inputs.len() > 0 {
        law_fresh_session_tallies(config, inputs.drop_last());
        let kinds = event_kinds(inputs);
        assert(kinds.drop_last() =~= event_kinds(inputs.drop_last()));
    }
}

/// A session in a given state has one summary, and no other.
pub proof fn law_summary_is_determined(a: Seq<Seq<char>>, b: Seq<Seq<char>>, s: SessionModel)
    requires
        is_summary(a, s),
        is_summary(b, s),
    ensures
        a == b,
{
    if s.config.stats {
        let x = choose|x: Seq<(u64, KindStats)>| #[trigger]
            is_snapshot(x, s.counts) && a == summary_lines(x);
        let y = choose|y: Seq<(u64, KindStats)>| #[trigger]
            is_snapshot(y, s.counts) && b == summary_lines(y);
        law_snapshot_unique(x, y, s.counts);
    } else {
        assert(a =~= b);
    }
}

/// The summary does not depend on the order in which the events arrived:
/// two sessions that were given the same events, each kind as often, end with
/// the same summary.
pub proof fn law_summary_ignores_arrival_order(
    config: Config,
    a: Seq<Input>,
    b: Seq<Input>,
    lines_a: Seq<Seq<char>>,
    lines_b: Seq<Seq<char>>,
)
    requires
        forall|i: int| 0 <= i < a.len() ==> is_event(#[trigger] a[i]),
        forall|i: int| 0 <= i < b.len() ==> is_event(#[trigger] b[i]),
        event_kinds(a).to_multiset() == event_kinds(b).to_multiset(),
        is_summary(lines_a, run(initial(config), a)),
        is_summary(lines_b, run(initial(config), b)),
    ensures
        lines_a == lines_b,
{
    law_fresh_session_tallies(config, a);
    law_fresh_session_tallies(config, b);
    law_arrival_order_is_immaterial(event_kinds(a), event_kinds(b));
    law_termination_is_permanent(initial(config), a);
    law_termination_is_permanent(initial(config), b);
    assert(run(initial(config), a) == run(initial(config), b));
    law_summary_is_determined(lines_a, lines_b, run(initial(config), a));
}

/// Whatever text an event carries, the line shown for it holds no control
/// character but whitespace.
pub proof fn law_event_output_is_safe(s: SessionModel, input: Input)
    requires
        is_event(input),
    ensures
        emitted(s, input) matches Some(out) ==> terminal_safe(out.1),
{
    if let Input::Notification(Notification::Event(event)) = input {
        law_sanitize_safe(event.content@);
        law_event_line_is_safe(event.kind, Some(sanitized(event.content@)));
        law_event_line_is_safe(event.kind, None);
    }
}

/// Every line that the session shows ends with a carriage return.
pub proof fn law_lines_end_with_return(s: SessionModel, input: Input)
    ensures
        emitted(s, input) matches Some(out) ==> out.1.len() > 0 && out.1.last() == '\r',
{
    reveal_strlit("relay status\r");
    reveal_strlit("stop!\r");
    reveal_strlit("shutdown!\r");
    reveal_strlit("PAUSED\r");
    reveal_strlit("UNPAUSED\r");
    reveal_strlit("\r");
    if let Input::Notification(Notification::Event(event)) = input {
        law_event_line_suits_raw_mode(event.kind, Some(sanitized(event.content@)));
        law_event_line_suits_raw_mode(event.kind, None);
    }
}

/// The reserved option has no effect: a session that differs only in it
/// moves the same way and shows the same lines.
pub proof fn law_show_tags_is_inert(s: SessionModel, input: Input, show_tags: bool)
    ensures
        ({
            let t = SessionModel { config: Config { show_tags, ..s.config }, ..s };
            &&& next(t, input) == SessionModel {
                config: Config { show_tags, ..s.config },
                ..next(s, input)
            }
            &&& emitted(t, input) == emitted(s, input)
        }),
{
}

} // verus!
