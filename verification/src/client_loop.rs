//! The initiator's receive loop, as a per-iteration decision function.
//!
//! The loop itself runs on a dedicated worker outside this crate: each
//! iteration it samples the readiness and stop flags, polls the inbound
//! endpoint with a bounded timeout, and hands the outcome to [`client_step`].
//! The step returns the new loop state, the host actions to carry out, and
//! whether the loop must exit.  Host actions are applied by marshalling them
//! onto the host's main execution context, never directly on the worker.
//!
//! Cookies that arrive before the host profile is ready are queued, and the
//! whole queue is drained — in arrival order — at the start of the first
//! iteration that observes readiness; the loop then continues polling
//! normally.  The drain order is observable only when several records for
//! the same cookie name and domain are pending at once; this loop fixes
//! arrival order, so the last record sent wins at the store, and proves it
//! below.  The readiness flag is sampled once per iteration and latches:
//! once a step has observed it, every later step stays ready.

use crate::console::spec_console_address_pref;
use crate::cookie_record::CookieRecord;
use crate::message::{BroadcastTopic, FeltMessage, PollEvent};
use crate::tokens::TokenState;
use vstd::prelude::*;

verus! {

/// One side effect on the host, to be marshalled onto the host's main
/// execution context by the caller of [`client_step`].
#[derive(Clone, Debug, PartialEq)]
pub enum HostAction {
    /// Add one cookie to the host cookie store.
    InjectCookie(CookieRecord),
    /// Set a boolean preference.
    SetBoolPref(String, bool),
    /// Set a string preference.
    SetStringPref(String, String),
    /// Set an integer preference.
    SetIntPref(String, i32),
    /// Offer a value to the set-once console-URL cell.
    SetConsoleUrl(String),
    /// Raise the session's startup barrier.  Deliberately scheduled onto the
    /// main context instead of applied here, so that it runs after any
    /// preference work already queued there.
    ScheduleStartupComplete,
    /// Broadcast a topic to host observers.
    Broadcast(BroadcastTopic),
    /// Broadcast a URL-open request carrying the URL.
    OpenUrl(String),
    /// Overwrite the token cache wholesale.
    StoreTokens(TokenState),
}

/// The state the loop keeps across iterations.
#[derive(Debug)]
pub struct ClientLoopState {
    /// Latched readiness of the host profile.
    pub profile_ready: bool,
    /// Cookies received before readiness, in arrival order.
    pub pending: Vec<CookieRecord>,
}

impl ClientLoopState {
    /// The state the loop starts in: not ready, nothing pending.
    pub fn new_initial() -> (r: ClientLoopState)
        ensures
            !r.profile_ready,
            r.pending@ == Seq::<CookieRecord>::empty(),
    {
        ClientLoopState { profile_ready: false, pending: Vec::new() }
    }
}

/// What one iteration decided, at the specification level.
pub ghost struct ClientStepModel {
    /// The latched readiness after the iteration.
    pub profile_ready: bool,
    /// The pending queue after the iteration.
    pub pending: Seq<CookieRecord>,
    /// The host actions of the iteration, in order.
    pub actions: Seq<HostAction>,
    /// Whether the loop exits after this iteration.
    pub exit: bool,
}

/// One injection action per queued cookie, in queue order.
pub open spec fn spec_inject_all(pending: Seq<CookieRecord>) -> Seq<HostAction> {
    pending.map_values(|c: CookieRecord| HostAction::InjectCookie(c))
}

/// The host actions that one polled event causes, given the latched
/// readiness.  Every message variant that the initiator does not consume is
/// ignored (logged by the caller).
pub open spec fn spec_event_actions(ready: bool, event: PollEvent) -> Seq<HostAction> {
    match event {
        PollEvent::Message(m) => match m {
            FeltMessage::Cookie(c) => if ready {
                seq![HostAction::InjectCookie(c)]
            } else {
                Seq::empty()
            },
            FeltMessage::BoolPreference(name, value) => seq![HostAction::SetBoolPref(name, value)],
            FeltMessage::StringPreference(name, value) => if name@
                == spec_console_address_pref() {
                seq![
                    HostAction::SetConsoleUrl(value),
                    HostAction::SetStringPref(name, value),
                ]
            } else {
                seq![HostAction::SetStringPref(name, value)]
            },
            FeltMessage::IntPreference(name, value) => seq![HostAction::SetIntPref(name, value)],
            FeltMessage::StartupReady => seq![HostAction::ScheduleStartupComplete],
            FeltMessage::RestartForced => seq![
                HostAction::Broadcast(BroadcastTopic::RestartForced),
            ],
            FeltMessage::Tokens(t) => seq![HostAction::StoreTokens(t)],
            FeltMessage::OpenURL(url) => seq![HostAction::OpenUrl(url)],
            _ => Seq::empty(),
        },
        _ => Seq::empty(),
    }
}

/// The cookies one polled event adds to the pending queue: a cookie message
/// received before readiness, and nothing else.
pub open spec fn spec_event_enqueues(ready: bool, event: PollEvent) -> Seq<CookieRecord> {
    match event {
        PollEvent::Message(FeltMessage::Cookie(c)) => if !ready {
            seq![c]
        } else {
            Seq::empty()
        },
        _ => Seq::empty(),
    }
}

/// One iteration of the loop:
/// - readiness latches (`ready_before || ready_signal`);
/// - once ready, the whole pending queue is drained first, in arrival order;
/// - the polled event is handled as [`spec_event_actions`] and
///   [`spec_event_enqueues`] say;
/// - the loop exits when the stop flag was set or the peer disconnected.
pub open spec fn spec_client_step(
    ready_before: bool,
    pending_before: Seq<CookieRecord>,
    ready_signal: bool,
    stop_signal: bool,
    event: PollEvent,
) -> ClientStepModel {
    let ready = ready_before || ready_signal;
    let drained = if ready {
        spec_inject_all(pending_before)
    } else {
        Seq::<HostAction>::empty()
    };
    let kept = if ready {
        Seq::<CookieRecord>::empty()
    } else {
        pending_before
    };
    ClientStepModel {
        profile_ready: ready,
        pending: kept + spec_event_enqueues(ready, event),
        actions: drained + spec_event_actions(ready, event),
        exit: stop_signal || (event is Disconnected),
    }
}

/// One iteration of the initiator's receive loop.  `ready_signal` and
/// `stop_signal` are the externally set flags as sampled this iteration;
/// `event` is what the bounded-timeout poll yielded.  Returns the new state,
/// the host actions to marshal (in order), and whether to exit the loop.
pub fn client_step(
    state: ClientLoopState,
    ready_signal: bool,
    stop_signal: bool,
    event: PollEvent,
) -> (r: (ClientLoopState, Vec<HostAction>, bool))
    ensures
        ({
            let m = spec_client_step(
                state.profile_ready,
                state.pending@,
                ready_signal,
                stop_signal,
                event,
            );
            &&& r.0.profile_ready == m.profile_ready
            &&& r.0.pending@ == m.pending
            &&& r.1@ == m.actions
            &&& r.2 == m.exit
        }),
{
    let ClientLoopState { profile_ready, mut pending } = state;
    let ghost pending0 = pending@;
    let ready = profile_ready || ready_signal;
    let mut actions: Vec<HostAction> = Vec::new();

    if ready {
        while pending.len() > 0
            invariant
                pending@.len() <= pending0.len(),
                pending@ == pending0.skip(pending0.len() - pending@.len()),
                actions@ == spec_inject_all(pending0.take(pending0.len() - pending@.len())),
            decreases pending@.len(),
        {
            let ghost j = pending0.len() - pending@.len();
            let c = pending.remove(0);
            proof {
                assert(c == pending0[j as int]);
                assert(pending@ =~= pending0.skip(j + 1));
            }
            actions.push(HostAction::InjectCookie(c));
            proof {
                assert(actions@ =~= spec_inject_all(pending0.take(j + 1)));
            }
        }
        proof {
            assert(pending0.take(pending0.len() as int) =~= pending0);
            assert(actions@ == spec_inject_all(pending0));
            assert(pending@ =~= Seq::<CookieRecord>::empty());
        }
    }

    let exit_event: bool = match event {
        PollEvent::Message(m) => {
            match m {
                FeltMessage::Cookie(c) => {
                    if ready {
                        actions.push(HostAction::InjectCookie(c));
                    } else {
                        pending.push(c);
                    }
                    false
                },
                FeltMessage::BoolPreference(name, value) => {
                    actions.push(HostAction::SetBoolPref(name, value));
                    false
                },
                FeltMessage::StringPreference(name, value) => {
                    let console_pref = crate::console::console_address_pref();
                    if name == console_pref {
                        actions.push(HostAction::SetConsoleUrl(value.clone()));
                    }
                    actions.push(HostAction::SetStringPref(name, value));
                    false
                },
                FeltMessage::IntPreference(name, value) => {
                    actions.push(HostAction::SetIntPref(name, value));
                    false
                },
                FeltMessage::StartupReady => {
                    actions.push(HostAction::ScheduleStartupComplete);
                    false
                },
                FeltMessage::RestartForced => {
                    actions.push(HostAction::Broadcast(BroadcastTopic::RestartForced));
                    false
                },
                FeltMessage::Tokens(t) => {
                    actions.push(HostAction::StoreTokens(t));
                    false
                },
                FeltMessage::OpenURL(url) => {
                    actions.push(HostAction::OpenUrl(url));
                    false
                },
                FeltMessage::VersionProbe(_) => false,
                FeltMessage::VersionValidated(_) => false,
                FeltMessage::ClientChannel => false,
                FeltMessage::Restarting => false,
                FeltMessage::ExtensionReady => false,
                FeltMessage::LogoutShutdown => false,
            }
        },
        PollEvent::Empty => false,
        PollEvent::TransientError => false,
        PollEvent::Disconnected => true,
    };

    proof {
        let m = spec_client_step(
            state.profile_ready,
            state.pending@,
            ready_signal,
            stop_signal,
            event,
        );
        assert(actions@ =~= m.actions);
        assert(pending@ =~= m.pending);
    }

    (ClientLoopState { profile_ready: ready, pending }, actions, stop_signal || exit_event)
}

/// The cookies a sequence of host actions hands to the injector, in order.
pub open spec fn spec_injected_cookies(actions: Seq<HostAction>) -> Seq<CookieRecord>
    decreases actions.len(),
{
    if actions.len() == 0 {
        Seq::empty()
    } else {
        let rest = spec_injected_cookies(actions.drop_last());
        match actions.last() {
            HostAction::InjectCookie(c) => rest + seq![c],
            _ => rest,
        }
    }
}

/// The cookies one polled event delivers: the payload of a cookie message,
/// and nothing else.
pub open spec fn spec_event_cookies(event: PollEvent) -> Seq<CookieRecord> {
    match event {
        PollEvent::Message(FeltMessage::Cookie(c)) => seq![c],
        _ => Seq::empty(),
    }
}

/// Injection extraction distributes over concatenation of action sequences.
pub proof fn lemma_injected_distributes(a: Seq<HostAction>, b: Seq<HostAction>)
    ensures
        spec_injected_cookies(a + b) == spec_injected_cookies(a) + spec_injected_cookies(b),
    decreases b.len(),
{
    if b.len() == 0 {
        assert(a + b =~= a);
        assert(spec_injected_cookies(b) == Seq::<CookieRecord>::empty());
        assert(spec_injected_cookies(a) + spec_injected_cookies(b) =~= spec_injected_cookies(a));
    } else {
        lemma_injected_distributes(a, b.drop_last());
        assert((a + b).drop_last() =~= a + b.drop_last());
        assert((a + b).last() == b.last());
        match b.last() {
            HostAction::InjectCookie(c) => {
                assert(spec_injected_cookies(a + b) =~= spec_injected_cookies(a)
                    + spec_injected_cookies(b));
            },
            _ => {
                assert(spec_injected_cookies(a + b) =~= spec_injected_cookies(a)
                    + spec_injected_cookies(b));
            },
        }
    }
}

/// Draining a queue injects exactly the queued cookies, in queue order.
pub proof fn lemma_inject_all_injected(pending: Seq<CookieRecord>)
    ensures
        spec_injected_cookies(spec_inject_all(pending)) == pending,
    decreases pending.len(),
{
    if pending.len() == 0 {
        assert(spec_inject_all(pending).len() == 0);
        assert(spec_injected_cookies(spec_inject_all(pending)) =~= pending);
    } else {
        let q = spec_inject_all(pending);
        assert(q.drop_last() =~= spec_inject_all(pending.drop_last()));
        assert(q.last() == HostAction::InjectCookie(pending.last()));
        lemma_inject_all_injected(pending.drop_last());
        assert(spec_injected_cookies(q) =~= pending);
    }
}

/// The actions of one event inject its cookies when ready, and nothing
/// otherwise.
pub proof fn lemma_injected_event_actions(ready: bool, event: PollEvent)
    ensures
        spec_injected_cookies(spec_event_actions(ready, event)) == (if ready {
            spec_event_cookies(event)
        } else {
            Seq::<CookieRecord>::empty()
        }),
{
    reveal_with_fuel(spec_injected_cookies, 4);
    match event {
        PollEvent::Message(m) => {
            match m {
                FeltMessage::Cookie(c) => {
                    if ready {
                        assert(spec_event_actions(ready, event) =~= seq![
                            HostAction::InjectCookie(c),
                        ]);
                        assert(spec_injected_cookies(seq![HostAction::InjectCookie(c)]) =~= seq![
                            c,
                        ]);
                    }
                },
                FeltMessage::StringPreference(name, value) => {
                    assert(spec_injected_cookies(spec_event_actions(ready, event)) =~= Seq::<
                        CookieRecord,
                    >::empty());
                },
                _ => {
                    assert(spec_injected_cookies(spec_event_actions(ready, event)) =~= Seq::<
                        CookieRecord,
                    >::empty());
                },
            }
        },
        _ => {
            assert(spec_injected_cookies(spec_event_actions(ready, event)) =~= Seq::<
                CookieRecord,
            >::empty());
        },
    }
}

/// Cookie accounting of one iteration: the cookies the step injects,
/// followed by the cookies still pending afterwards, are exactly the cookies
/// that were pending before followed by those the event delivered.  Nothing
/// is duplicated, nothing is dropped, and arrival order is kept.
pub proof fn lemma_step_cookie_conservation(
    ready_before: bool,
    pending_before: Seq<CookieRecord>,
    ready_signal: bool,
    stop_signal: bool,
    event: PollEvent,
)
    ensures
        ({
            let m = spec_client_step(ready_before, pending_before, ready_signal, stop_signal, event);
            spec_injected_cookies(m.actions) + m.pending == pending_before + spec_event_cookies(
                event,
            )
        }),
{
    let m = spec_client_step(ready_before, pending_before, ready_signal, stop_signal, event);
    let ready = ready_before || ready_signal;
    let drained = if ready {
        spec_inject_all(pending_before)
    } else {
        Seq::<HostAction>::empty()
    };
    lemma_injected_distributes(drained, spec_event_actions(ready, event));
    lemma_injected_event_actions(ready, event);
    if ready {
        lemma_inject_all_injected(pending_before);
        assert(spec_injected_cookies(m.actions) + m.pending =~= pending_before
            + spec_event_cookies(event));
    } else {
        reveal_with_fuel(spec_injected_cookies, 1);
        assert(spec_injected_cookies(drained) == Seq::<CookieRecord>::empty());
        assert(spec_injected_cookies(m.actions) + m.pending =~= pending_before
            + spec_event_cookies(event));
    }
}

/// Before the readiness signal has ever been observed, a step performs no
/// cookie injection at all: cookies can only queue.
pub proof fn lemma_no_injection_before_ready(
    pending_before: Seq<CookieRecord>,
    stop_signal: bool,
    event: PollEvent,
)
    ensures
        ({
            let m = spec_client_step(false, pending_before, false, stop_signal, event);
            forall|i: int|
                0 <= i < m.actions.len() ==> !(#[trigger] m.actions[i] is InjectCookie)
        }),
{
    let m = spec_client_step(false, pending_before, false, stop_signal, event);
    assert(m.actions =~= spec_event_actions(false, event));
    match event {
        PollEvent::Message(msg) => {
            match msg {
                FeltMessage::StringPreference(name, value) => {
                    assert forall|i: int| 0 <= i < m.actions.len() implies !(#[trigger] m.actions[i]
                        is InjectCookie) by {
                        if name@ == spec_console_address_pref() {
                            assert(m.actions =~= seq![
                                HostAction::SetConsoleUrl(value),
                                HostAction::SetStringPref(name, value),
                            ]);
                        } else {
                            assert(m.actions =~= seq![HostAction::SetStringPref(name, value)]);
                        }
                    }
                },
                _ => {},
            }
        },
        _ => {},
    }
}

/// A stop flag observed in an iteration exits the loop in that same
/// iteration — the poll is bounded, so the flag is observed within one
/// polling interval — and so does a disconnected peer.
pub proof fn lemma_stop_exits(
    ready_before: bool,
    pending_before: Seq<CookieRecord>,
    ready_signal: bool,
    stop_signal: bool,
    event: PollEvent,
)
    ensures
        stop_signal ==> spec_client_step(
            ready_before,
            pending_before,
            ready_signal,
            stop_signal,
            event,
        ).exit,
        event is Disconnected ==> spec_client_step(
            ready_before,
            pending_before,
            ready_signal,
            stop_signal,
            event,
        ).exit,
{
}

/// One input to one iteration of the loop: the two sampled flags and the
/// polled event.
pub ghost struct LoopInput {
    pub ready_signal: bool,
    pub stop_signal: bool,
    pub event: PollEvent,
}

/// A whole run of the loop, at the specification level.
pub ghost struct ClientRunModel {
    /// The latched readiness when the run ends.
    pub profile_ready: bool,
    /// The pending queue when the run ends.
    pub pending: Seq<CookieRecord>,
    /// All host actions of the run, in order.
    pub actions: Seq<HostAction>,
    /// How many inputs the run consumed before exiting (all of them if no
    /// iteration exited).
    pub consumed: int,
    /// Whether some iteration exited the loop.
    pub exited: bool,
}

/// The loop run over a sequence of iteration inputs: steps are taken in
/// order until one exits or the inputs run out.
pub open spec fn spec_client_run(
    ready0: bool,
    pending0: Seq<CookieRecord>,
    inputs: Seq<LoopInput>,
) -> ClientRunModel
    decreases inputs.len(),
{
    if inputs.len() == 0 {
        ClientRunModel {
            profile_ready: ready0,
            pending: pending0,
            actions: Seq::empty(),
            consumed: 0,
            exited: false,
        }
    } else {
        let step = spec_client_step(
            ready0,
            pending0,
            inputs[0].ready_signal,
            inputs[0].stop_signal,
            inputs[0].event,
        );
        if step.exit {
            ClientRunModel {
                profile_ready: step.profile_ready,
                pending: step.pending,
                actions: step.actions,
                consumed: 1,
                exited: true,
            }
        } else {
            let rest = spec_client_run(step.profile_ready, step.pending, inputs.drop_first());
            ClientRunModel {
                profile_ready: rest.profile_ready,
                pending: rest.pending,
                actions: step.actions + rest.actions,
                consumed: 1 + rest.consumed,
                exited: rest.exited,
            }
        }
    }
}

/// The cookies delivered by a sequence of iteration inputs, in order.
pub open spec fn spec_inputs_cookies(inputs: Seq<LoopInput>) -> Seq<CookieRecord>
    decreases inputs.len(),
{
    if inputs.len() == 0 {
        Seq::empty()
    } else {
        spec_event_cookies(inputs[0].event) + spec_inputs_cookies(inputs.drop_first())
    }
}

/// A run consumes between zero and all of its inputs.
pub proof fn lemma_run_consumed_bounds(
    ready0: bool,
    pending0: Seq<CookieRecord>,
    inputs: Seq<LoopInput>,
)
    ensures
        0 <= spec_client_run(ready0, pending0, inputs).consumed <= inputs.len(),
    decreases inputs.len(),
{
    if inputs.len() > 0 {
        let step = spec_client_step(
            ready0,
            pending0,
            inputs[0].ready_signal,
            inputs[0].stop_signal,
            inputs[0].event,
        );
        if !step.exit {
            lemma_run_consumed_bounds(step.profile_ready, step.pending, inputs.drop_first());
        }
    }
}

/// Cookie accounting of a whole run: over any sequence of iteration inputs,
/// the cookies the run injects, followed by the cookies still pending at its
/// end, are exactly the cookies pending at its start followed by every
/// cookie delivered by a consumed input, in arrival order.  In particular
/// each delivered cookie is injected at most once, never twice, and exactly
/// once in every run that ends ready with an empty queue.
pub proof fn lemma_run_cookie_conservation(
    ready0: bool,
    pending0: Seq<CookieRecord>,
    inputs: Seq<LoopInput>,
)
    ensures
        ({
            let run = spec_client_run(ready0, pending0, inputs);
            spec_injected_cookies(run.actions) + run.pending == pending0 + spec_inputs_cookies(
                inputs.take(run.consumed),
            )
        }),
    decreases inputs.len(),
{
    let run = spec_client_run(ready0, pending0, inputs);
    if inputs.len() == 0 {
        reveal_with_fuel(spec_injected_cookies, 1);
        assert(inputs.take(0) =~= Seq::<LoopInput>::empty());
        assert(spec_injected_cookies(run.actions) + run.pending =~= pending0
            + spec_inputs_cookies(inputs.take(run.consumed)));
    } else {
        let input0 = inputs[0];
        let step = spec_client_step(
            ready0,
            pending0,
            input0.ready_signal,
            input0.stop_signal,
            input0.event,
        );
        lemma_step_cookie_conservation(
            ready0,
            pending0,
            input0.ready_signal,
            input0.stop_signal,
            input0.event,
        );
        if step.exit {
            reveal_with_fuel(spec_inputs_cookies, 2);
            assert(inputs.take(1) =~= seq![input0]);
            assert(seq![input0].drop_first() =~= Seq::<LoopInput>::empty());
            assert(spec_inputs_cookies(seq![input0]) == spec_event_cookies(input0.event)
                + spec_inputs_cookies(Seq::<LoopInput>::empty()));
            assert(spec_event_cookies(input0.event) + Seq::<CookieRecord>::empty()
                =~= spec_event_cookies(input0.event));
            assert(spec_inputs_cookies(inputs.take(1)) =~= spec_event_cookies(input0.event));
            assert(spec_injected_cookies(run.actions) + run.pending =~= pending0
                + spec_inputs_cookies(inputs.take(run.consumed)));
        } else {
            let rest = spec_client_run(step.profile_ready, step.pending, inputs.drop_first());
            lemma_run_consumed_bounds(step.profile_ready, step.pending, inputs.drop_first());
            lemma_run_cookie_conservation(step.profile_ready, step.pending, inputs.drop_first());
            lemma_injected_distributes(step.actions, rest.actions);
            assert(inputs.take(run.consumed)[0] == input0);
            assert(inputs.take(run.consumed).drop_first() =~= inputs.drop_first().take(
                rest.consumed,
            ));
            assert(spec_inputs_cookies(inputs.take(run.consumed)) == spec_event_cookies(
                input0.event,
            ) + spec_inputs_cookies(inputs.drop_first().take(rest.consumed)));
            assert(spec_injected_cookies(run.actions) + run.pending =~= pending0
                + spec_inputs_cookies(inputs.take(run.consumed)));
        }
    }
}

/// An iteration whose sampled stop flag is set is the run's last: exactly
/// the one input is consumed, and no further message is ever processed.
pub proof fn lemma_stop_consumes_nothing_further(
    ready0: bool,
    pending0: Seq<CookieRecord>,
    inputs: Seq<LoopInput>,
)
    requires
        inputs.len() > 0,
        inputs[0].stop_signal,
    ensures
        spec_client_run(ready0, pending0, inputs).consumed == 1,
        spec_client_run(ready0, pending0, inputs).exited,
{
}

/// Readiness latches across a run: a run whose start was ready ends ready,
/// whatever its inputs sampled.
pub proof fn lemma_run_ready_latches(pending0: Seq<CookieRecord>, inputs: Seq<LoopInput>)
    ensures
        spec_client_run(true, pending0, inputs).profile_ready,
    decreases inputs.len(),
{
    if inputs.len() > 0 {
        let step = spec_client_step(
            true,
            pending0,
            inputs[0].ready_signal,
            inputs[0].stop_signal,
            inputs[0].event,
        );
        if !step.exit {
            lemma_run_ready_latches(step.pending, inputs.drop_first());
        }
    }
}

/// Over a whole run that starts unready and never observes the readiness
/// signal, no cookie is ever handed to the injector: delivery before
/// readiness can only queue.
pub proof fn lemma_run_no_injection_before_ready(
    pending0: Seq<CookieRecord>,
    inputs: Seq<LoopInput>,
)
    requires
        forall|i: int| 0 <= i < inputs.len() ==> !(#[trigger] inputs[i]).ready_signal,
    ensures
        ({
            let run = spec_client_run(false, pending0, inputs);
            forall|i: int|
                0 <= i < run.actions.len() ==> !(#[trigger] run.actions[i] is InjectCookie)
        }),
    decreases inputs.len(),
{
    let run = spec_client_run(false, pending0, inputs);
    if inputs.len() > 0 {
        let input0 = inputs[0];
        let step = spec_client_step(
            false,
            pending0,
            input0.ready_signal,
            input0.stop_signal,
            input0.event,
        );
        lemma_no_injection_before_ready(pending0, input0.stop_signal, input0.event);
        if !step.exit {
            let rest_inputs = inputs.drop_first();
            assert(forall|i: int|
                0 <= i < rest_inputs.len() ==> !(#[trigger] rest_inputs[i]).ready_signal) by {
                assert(forall|i: int|
                    0 <= i < rest_inputs.len() ==> rest_inputs[i] == inputs[i + 1]);
            }
            lemma_run_no_injection_before_ready(step.pending, rest_inputs);
            let rest = spec_client_run(step.profile_ready, step.pending, rest_inputs);
            assert forall|i: int| 0 <= i < run.actions.len() implies !(#[trigger] run.actions[i]
                is InjectCookie) by {
                if i < step.actions.len() {
                    assert(run.actions[i] == step.actions[i]);
                } else {
                    assert(run.actions[i] == rest.actions[i - step.actions.len()]);
                }
            }
        }
    }
}

} // verus!
