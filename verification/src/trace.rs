//! Whole runs of the agent: what a sequence of events leads to, and what
//! holds of every run.

use crate::agent::{spec_step, Action, Agent, Event, Fatal, Phase};
use crate::command::CommandName;
use crate::dispatch::{spec_dispatch, InboundEvent};
use crate::session::RETRY_INTERVAL_MS;
use vstd::prelude::*;

verus! {

/// The phase after `event` arrives in `phase`. A refused event changes
/// nothing.
pub open spec fn spec_advance(phase: Phase, event: Event) -> Phase {
    match spec_step(phase, event) {
        Some((next, _)) => next,
        None => phase,
    }
}

/// The actions that `event` draws in `phase`: one, or none where the event is
/// refused.
pub open spec fn spec_answer(phase: Phase, event: Event) -> Seq<Action> {
    match spec_step(phase, event) {
        Some((_, action)) => seq![action],
        None => seq![],
    }
}

/// The phase after `events` have arrived, in order, starting in `phase`.
pub open spec fn spec_phase_after(phase: Phase, events: Seq<Event>) -> Phase
    decreases events.len(),
{
    if events.len() == 0 {
        phase
    } else {
        spec_phase_after(spec_advance(phase, events[0]), events.drop_first())
    }
}

/// The actions that `events` draw, in order, starting in `phase`.
pub open spec fn spec_actions(phase: Phase, events: Seq<Event>) -> Seq<Action>
    decreases events.len(),
{
    if events.len() == 0 {
        seq![]
    } else {
        spec_answer(phase, events[0]) + spec_actions(
            spec_advance(phase, events[0]),
            events.drop_first(),
        )
    }
}

/// How often `action` occurs in `actions`.
pub open spec fn occurrences(actions: Seq<Action>, action: Action) -> nat
    decreases actions.len(),
{
    if actions.len() == 0 {
        0
    } else {
        occurrences(actions.drop_last(), action) + if actions.last() == action {
            1nat
        } else {
            0nat
        }
    }
}

/// The events of so many failed reconnects, one for each reason: the failure,
/// then the end of the wait that follows it.
pub open spec fn failed_reconnects(reasons: Seq<String>) -> Seq<Event>
    decreases reasons.len(),
{
    if reasons.len() == 0 {
        seq![]
    } else {
        failed_reconnects(reasons.drop_last()) + seq![
            Event::ReconnectFailed { reason: reasons.last() },
            Event::DelayElapsed,
        ]
    }
}

/// The events of an outage: the connection is lost, reconnecting fails once
/// for each reason, and then succeeds.
pub open spec fn outage(reasons: Seq<String>) -> Seq<Event> {
    seq![Event::Inbound(InboundEvent::Disconnected)] + failed_reconnects(reasons) + seq![
        Event::Reconnected,
    ]
}

/// So many rounds of waiting out the retry interval and reconnecting.
pub open spec fn retries(count: nat) -> Seq<Action>
    decreases count,
{
    if count == 0 {
        seq![]
    } else {
        retries((count - 1) as nat) + seq![
            Action::Wait { millis: RETRY_INTERVAL_MS },
            Action::Reconnect,
        ]
    }
}

impl Agent {
    /// Feeds `events` to the agent in order and collects the actions it
    /// answers with. Refused events are passed over.
    pub fn replay(&mut self, events: &Vec<Event>) -> (r: Vec<Action>)
        ensures
            r@ == spec_actions(old(self).spec_phase(), events@),
            final(self).spec_phase() == spec_phase_after(old(self).spec_phase(), events@),
            final(self).spec_identity() == old(self).spec_identity(),
    {
        let ghost first = self.spec_phase();
        let ghost name = self.spec_identity();
        let mut actions: Vec<Action> = Vec::new();
        let mut i: usize = 0;
        proof {
            assert(events@.subrange(0, 0) =~= Seq::<Event>::empty());
        }
        while i < events.len()
            invariant
                i <= events@.len(),
                self.spec_identity() == name,
                actions@ == spec_actions(first, events@.subrange(0, i as int)),
                self.spec_phase() == spec_phase_after(first, events@.subrange(0, i as int)),
            decreases events@.len() - i,
        {
            let ghost before = self.spec_phase();
            let ghost done = events@.subrange(0, i as int);
            proof {
                lemma_run_concat(first, done, seq![events@[i as int]]);
                assert(done + seq![events@[i as int]] =~= events@.subrange(0, i + 1));
                lemma_run_single(before, events@[i as int]);
            }
            match self.step(&events[i]) {
                Some(reaction) => {
                    actions.push(reaction.action);
                },
                None => {},
            }
            assert(actions@ =~= spec_actions(first, done) + spec_answer(before, events@[i as int]));
            i += 1;
        }
        proof {
            assert(events@.subrange(0, events@.len() as int) =~= events@);
        }
        actions
    }
}

/// A run of one event.
pub proof fn lemma_run_single(phase: Phase, event: Event)
    ensures
        spec_phase_after(phase, seq![event]) == spec_advance(phase, event),
        spec_actions(phase, seq![event]) == spec_answer(phase, event),
{
    reveal_with_fuel(spec_phase_after, 2);
    reveal_with_fuel(spec_actions, 2);
    let one = seq![event];
    assert(one[0] == event);
    assert(one.drop_first().len() == 0);
    assert(spec_actions(phase, one) =~= spec_answer(phase, event));
}

/// A run can be cut anywhere: its second part goes on from the phase in which
/// the first part ended.
pub proof fn lemma_run_concat(phase: Phase, first: Seq<Event>, second: Seq<Event>)
    ensures
        spec_phase_after(phase, first + second) == spec_phase_after(
            spec_phase_after(phase, first),
            second,
        ),
        spec_actions(phase, first + second) == spec_actions(phase, first) + spec_actions(
            spec_phase_after(phase, first),
            second,
        ),
    decreases first.len(),
{
    if first.len() == 0 {
        assert(first + second =~= second);
        assert(spec_actions(phase, first) + spec_actions(phase, second) =~= spec_actions(
            phase,
            second,
        ));
    } else {
        let whole = first + second;
        assert(whole[0] == first[0]);
        assert(whole.drop_first() =~= first.drop_first() + second);
        lemma_run_concat(spec_advance(phase, first[0]), first.drop_first(), second);
        assert(spec_actions(phase, whole) =~= spec_actions(phase, first) + spec_actions(
            spec_phase_after(phase, first),
            second,
        ));
    }
}

/// Occurrences add up over a concatenation.
pub proof fn lemma_occurrences_concat(first: Seq<Action>, second: Seq<Action>, action: Action)
    ensures
        occurrences(first + second, action) == occurrences(first, action) + occurrences(
            second,
            action,
        ),
    decreases second.len(),
{
    if second.len() == 0 {
        assert(first + second =~= first);
    } else {
        let whole = first + second;
        assert(whole.last() == second.last());
        assert(whole.drop_last() =~= first + second.drop_last());
        lemma_occurrences_concat(first, second.drop_last(), action);
    }
}

/// Occurrences in a sequence of one or two actions.
proof fn lemma_occurrences_short(a: Action, b: Action, action: Action)
    ensures
        occurrences(seq![a], action) == if a == action {
            1nat
        } else {
            0nat
        },
        occurrences(seq![a, b], action) == (if a == action {
            1nat
        } else {
            0nat
        }) + (if b == action {
            1nat
        } else {
            0nat
        }),
{
    reveal_with_fuel(occurrences, 3);
    let one = seq![a];
    let two = seq![a, b];
    assert(one.drop_last().len() == 0);
    assert(two.drop_last() =~= one);
}

/// In `count` rounds of retrying the agent waits `count` times, each time for
/// the retry interval, reconnects `count` times, and does nothing else.
pub proof fn lemma_retries(count: nat, action: Action)
    ensures
        retries(count).len() == 2 * count,
        occurrences(retries(count), action) == if action == Action::Reconnect || action
            == (Action::Wait { millis: RETRY_INTERVAL_MS }) {
            count
        } else {
            0nat
        },
    decreases count,
{
    if count > 0 {
        let round = seq![Action::Wait { millis: RETRY_INTERVAL_MS }, Action::Reconnect];
        lemma_retries((count - 1) as nat, action);
        lemma_occurrences_concat(retries((count - 1) as nat), round, action);
        lemma_occurrences_short(
            Action::Wait { millis: RETRY_INTERVAL_MS },
            Action::Reconnect,
            action,
        );
    }
}

/// While reconnecting, each failure is answered with a wait of the retry
/// interval and each end of a wait with another reconnect, without end and
/// without change: after any number of failures the agent is reconnecting
/// again.
pub proof fn lemma_failed_reconnects(reasons: Seq<String>)
    ensures
        spec_phase_after(Phase::Reconnecting, failed_reconnects(reasons)) == Phase::Reconnecting,
        spec_actions(Phase::Reconnecting, failed_reconnects(reasons)) == retries(reasons.len()),
    decreases reasons.len(),
{
    if reasons.len() > 0 {
        let before = failed_reconnects(reasons.drop_last());
        let failure = Event::ReconnectFailed { reason: reasons.last() };
        lemma_failed_reconnects(reasons.drop_last());
        lemma_run_concat(Phase::Reconnecting, before, seq![failure, Event::DelayElapsed]);
        assert(seq![failure, Event::DelayElapsed] =~= seq![failure] + seq![Event::DelayElapsed]);
        lemma_run_concat(Phase::Reconnecting, seq![failure], seq![Event::DelayElapsed]);
        lemma_run_single(Phase::Reconnecting, failure);
        lemma_run_single(Phase::Backoff, Event::DelayElapsed);
        assert(spec_actions(Phase::Reconnecting, seq![failure, Event::DelayElapsed]) =~= seq![
            Action::Wait { millis: RETRY_INTERVAL_MS },
            Action::Reconnect,
        ]);
    }
}

/// The reconnect loop. When a listening agent loses its connection and
/// reconnecting fails `reasons.len()` times before it succeeds, the agent
/// reconnects exactly once more than it failed, waits the retry interval
/// after each failure and at no other time, and then listens again, asking for
/// the next event exactly once. The whole outage draws just these actions, in
/// this order.
pub proof fn lemma_outage(reasons: Seq<String>)
    ensures
        spec_phase_after(Phase::Listening, outage(reasons)) == Phase::Listening,
        spec_actions(Phase::Listening, outage(reasons)) == seq![Action::Reconnect] + retries(
            reasons.len(),
        ) + seq![Action::AwaitEvent],
        occurrences(spec_actions(Phase::Listening, outage(reasons)), Action::Reconnect)
            == reasons.len() + 1,
        occurrences(
            spec_actions(Phase::Listening, outage(reasons)),
            Action::Wait { millis: RETRY_INTERVAL_MS },
        ) == reasons.len(),
        occurrences(spec_actions(Phase::Listening, outage(reasons)), Action::AwaitEvent) == 1,
        forall|action: Action|
            action != Action::Reconnect && action != (Action::Wait { millis: RETRY_INTERVAL_MS })
                && action != Action::AwaitEvent ==> occurrences(
                spec_actions(Phase::Listening, outage(reasons)),
                action,
            ) == 0,
{
    let lost = seq![Event::Inbound(InboundEvent::Disconnected)];
    let failures = failed_reconnects(reasons);
    let back = seq![Event::Reconnected];
    let count = reasons.len();
    lemma_run_single(Phase::Listening, Event::Inbound(InboundEvent::Disconnected));
    lemma_failed_reconnects(reasons);
    lemma_run_single(Phase::Reconnecting, Event::Reconnected);
    lemma_run_concat(Phase::Listening, lost, failures);
    lemma_run_concat(Phase::Listening, lost + failures, back);
    let actions = spec_actions(Phase::Listening, outage(reasons));
    assert(actions == seq![Action::Reconnect] + retries(count) + seq![Action::AwaitEvent]);
    assert forall|action: Action|
        occurrences(actions, action) == (if action == Action::Reconnect {
            count + 1
        } else if action == (Action::Wait { millis: RETRY_INTERVAL_MS }) {
            count
        } else if action == Action::AwaitEvent {
            1nat
        } else {
            0nat
        }) by {
        lemma_retries(count, action);
        lemma_occurrences_concat(seq![Action::Reconnect], retries(count), action);
        lemma_occurrences_concat(
            seq![Action::Reconnect] + retries(count),
            seq![Action::AwaitEvent],
            action,
        );
        lemma_occurrences_short(Action::Reconnect, Action::Reconnect, action);
        lemma_occurrences_short(Action::AwaitEvent, Action::AwaitEvent, action);
    }
}

/// Nothing is lost or repeated across an outage. Whatever arrives after the
/// agent has reconnected is answered exactly as it would have been had the
/// connection never been lost.
pub proof fn lemma_resumes_after_outage(reasons: Seq<String>, later: Seq<Event>)
    ensures
        spec_actions(Phase::Listening, outage(reasons) + later) == spec_actions(
            Phase::Listening,
            outage(reasons),
        ) + spec_actions(Phase::Listening, later),
        spec_phase_after(Phase::Listening, outage(reasons) + later) == spec_phase_after(
            Phase::Listening,
            later,
        ),
{
    lemma_outage(reasons);
    lemma_run_concat(Phase::Listening, outage(reasons), later);
}

/// The agent subscribes once. Past the first connect no run, however long
/// and whatever happens in it, draws another subscription or another first
/// connect: a lost connection is mended by reconnecting alone.
pub proof fn lemma_never_subscribes_again(phase: Phase, events: Seq<Event>)
    requires
        phase != Phase::Connecting,
    ensures
        spec_phase_after(phase, events) != Phase::Connecting,
        occurrences(spec_actions(phase, events), Action::Subscribe) == 0,
        occurrences(spec_actions(phase, events), Action::Connect) == 0,
    decreases events.len(),
{
    if events.len() > 0 {
        let next = spec_advance(phase, events[0]);
        let answer = spec_answer(phase, events[0]);
        lemma_never_subscribes_again(next, events.drop_first());
        let rest = spec_actions(next, events.drop_first());
        lemma_occurrences_concat(answer, rest, Action::Subscribe);
        lemma_occurrences_concat(answer, rest, Action::Connect);
        if answer.len() > 0 {
            lemma_occurrences_short(answer[0], answer[0], Action::Subscribe);
            lemma_occurrences_short(answer[0], answer[0], Action::Connect);
            assert(answer =~= seq![answer[0]]);
        } else {
            assert(answer =~= Seq::<Action>::empty());
        }
    }
}

/// From its start the agent subscribes at most once, whatever happens.
pub proof fn lemma_subscribes_at_most_once(events: Seq<Event>)
    ensures
        occurrences(spec_actions(Phase::Connecting, events), Action::Subscribe) <= 1,
    decreases events.len(),
{
    if events.len() > 0 {
        let next = spec_advance(Phase::Connecting, events[0]);
        let answer = spec_answer(Phase::Connecting, events[0]);
        let rest = spec_actions(next, events.drop_first());
        lemma_occurrences_concat(answer, rest, Action::Subscribe);
        if next == Phase::Connecting {
            lemma_subscribes_at_most_once(events.drop_first());
            assert(answer =~= Seq::<Action>::empty());
        } else {
            lemma_never_subscribes_again(next, events.drop_first());
            lemma_occurrences_short(answer[0], answer[0], Action::Subscribe);
            assert(answer =~= seq![answer[0]]);
        }
    }
}

/// Whether `event` is a message that asks for `command`.
pub open spec fn asks_for(event: Event, command: CommandName) -> bool {
    match event {
        Event::Inbound(InboundEvent::Message { topic, payload }) => spec_dispatch(
            topic@,
            payload@,
        ) == Some(command),
        _ => false,
    }
}

/// Whether the agent answers `event` in `phase` with `action`.
pub open spec fn draws(phase: Phase, event: Event, action: Action) -> bool {
    match spec_step(phase, event) {
        Some((_, answer)) => answer == action,
        None => false,
    }
}

/// A command runs only for a message that asks for it: the agent answers
/// with `Execute` exactly when it is listening and the event is a message on
/// a command topic whose payload names that command.
pub proof fn lemma_executes_only_on_command(phase: Phase, event: Event, command: CommandName)
    ensures
        draws(phase, event, Action::Execute(command)) <==> phase == Phase::Listening && asks_for(
            event,
            command,
        ),
{
}

/// While a command runs the agent takes up nothing else. The step that
/// starts a command leaves the agent executing it, and in that phase every
/// event but the command's own end is refused.
pub proof fn lemma_execution_blocks(phase: Phase, event: Event, command: CommandName)
    ensures
        draws(phase, event, Action::Execute(command)) ==> spec_advance(phase, event)
            == Phase::Executing(command),
        spec_step(Phase::Executing(command), event) is Some ==> event is CommandFinished || event
            is LaunchFailed,
{
}

/// A message that asks for nothing is a no-op, however often it comes: the
/// agent goes on listening and asks for the next event.
pub proof fn lemma_ignored_message_is_no_op(topic: String, payload: Vec<u8>)
    requires
        spec_dispatch(topic@, payload@) is None,
    ensures
        spec_step(Phase::Listening, Event::Inbound(InboundEvent::Message { topic, payload }))
            == Some((Phase::Listening, Action::AwaitEvent)),
{
}

/// The agent subscribes when its first connect has succeeded, and at no
/// other time.
pub proof fn lemma_subscribes_on_first_connect(phase: Phase, event: Event)
    ensures
        draws(phase, event, Action::Subscribe) <==> phase == Phase::Connecting && event
            is Connected,
{
}

/// The failure, if any, with which `event` ends the agent in `phase`: a
/// first connect or a subscription that fails, or a command that cannot be
/// launched.
pub open spec fn fatal_of(phase: Phase, event: Event) -> Option<Fatal> {
    match phase {
        Phase::Connecting if event is ConnectFailed => Some(Fatal::Connect),
        Phase::Subscribing if event is SubscribeFailed => Some(Fatal::Subscribe),
        Phase::Executing(command) if event is LaunchFailed => Some(Fatal::Launch(command)),
        _ => None,
    }
}

/// The agent ends as failed on the failures that `fatal_of` lists, and on
/// nothing else.
pub proof fn lemma_fatal_conditions(phase: Phase, event: Event, fatal: Fatal)
    ensures
        draws(phase, event, Action::Abort(fatal)) <==> fatal_of(phase, event) == Some(fatal),
{
}

/// The agent never gives up on a lost connection. While it reconnects or
/// waits to, no event ends it: every event it takes leaves it reconnecting,
/// waiting or listening again.
pub proof fn lemma_outage_is_never_fatal(phase: Phase, event: Event)
    requires
        phase == Phase::Reconnecting || phase == Phase::Backoff,
    ensures
        spec_advance(phase, event) == Phase::Reconnecting || spec_advance(phase, event)
            == Phase::Backoff || spec_advance(phase, event) == Phase::Listening,
        forall|fatal: Fatal| !draws(phase, event, Action::Abort(fatal)),
        !draws(phase, event, Action::Finish),
{
}

/// A lost connection draws no command: the agent answers it with a
/// reconnect.
pub proof fn lemma_disconnect_draws_reconnect()
    ensures
        spec_step(Phase::Listening, Event::Inbound(InboundEvent::Disconnected)) == Some(
            (Phase::Reconnecting, Action::Reconnect),
        ),
{
}

} // verus!
