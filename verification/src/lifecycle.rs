use crate::kernel::spec_at_rest;
use crate::kernel::spec_complete_execute_request;
use crate::kernel::spec_execute_request;
use crate::kernel::spec_input_reply;
use crate::kernel::spec_next_count;
use crate::kernel::spec_reply;
use crate::kernel::spec_write_console;
use crate::kernel::KernelActionView;
use crate::kernel::KernelState;
use crate::kernel::Phase;
use crate::kernel::Transition;
use crate::prompt::spec_prompt_info;
use crate::prompt::PromptView;
use crate::wire::ExecuteRequestView;
use crate::wire::IOPubView;
use crate::wire::Status;
use vstd::prelude::*;

verus! {

/// Anything that can happen to the kernel.
pub ghost enum KernelEvent {
    Execute(ExecuteRequestView),
    Prompt(PromptView),
    InputReply(Option<Seq<char>>),
    Write { content: Seq<char>, otype: i32 },
    /// The outstanding request is given up.
    Abandon,
}

/// The kernel's move on one event.
pub open spec fn spec_step(s: KernelState, e: KernelEvent) -> Transition {
    match e {
        KernelEvent::Execute(req) => spec_execute_request(s, req),
        KernelEvent::Prompt(info) => spec_complete_execute_request(s, info),
        KernelEvent::InputReply(answer) => spec_input_reply(s, answer),
        KernelEvent::Write { content, otype } => spec_write_console(s, content, otype),
        KernelEvent::Abandon => Transition { state: spec_at_rest(s), actions: Seq::empty() },
    }
}

/// The state after a series of events.
pub open spec fn spec_run(s: KernelState, events: Seq<KernelEvent>) -> KernelState
    decreases events.len(),
{
    if events.len() == 0 {
        s
    } else {
        spec_step(spec_run(s, events.drop_last()), events.last()).state
    }
}

/// The event is an execute request that stores history, met by a kernel with
/// nothing outstanding.
pub open spec fn counts(s: KernelState, e: KernelEvent) -> bool {
    s.phase == Phase::Idle && match e {
        KernelEvent::Execute(req) => req.store_history,
        _ => false,
    }
}

/// The action closes a request as successfully run.
pub open spec fn is_success_reply(a: KernelActionView) -> bool {
    match a {
        KernelActionView::Reply { reply, .. } => reply.status == Status::Success,
        _ => false,
    }
}

/// A request that does not store history leaves the counter where it was.
pub proof fn lemma_count_kept_without_history(s: KernelState, req: ExecuteRequestView)
    requires
        !req.store_history,
    ensures
        spec_execute_request(s, req).state.execution_count == s.execution_count,
{
}

/// An accepted request that stores history moves the counter up by exactly
/// one, and its echo, sent unless the request is silent, comes before
/// anything else and carries the new value.
pub proof fn lemma_count_advances_with_history(s: KernelState, req: ExecuteRequestView)
    requires
        s.phase == Phase::Idle,
        req.store_history,
        s.execution_count < u32::MAX,
    ensures
        spec_execute_request(s, req).state.execution_count == s.execution_count + 1,
        !req.silent ==> spec_execute_request(s, req).actions[0] == KernelActionView::Broadcast(
            IOPubView::ExecuteInput {
                code: req.code,
                execution_count: (s.execution_count + 1) as u32,
            },
        ),
{
}

/// Nothing but an accepted request that stores history moves the counter:
/// not a refused request, not a prompt of any kind, not an answer to an
/// input request, not output.
pub proof fn lemma_only_counted_requests_move_the_count(s: KernelState, e: KernelEvent)
    ensures
        spec_step(s, e).state.execution_count == spec_next_count(
            s.execution_count,
            counts(s, e),
        ),
{
}

/// No event of the series is an execute request.
pub open spec fn no_requests(events: Seq<KernelEvent>) -> bool {
    forall|i: int| 0 <= i < events.len() ==> !(#[trigger] events[i] is Execute)
}

/// From a request that does not store history to any later point before the
/// next request, whatever the interpreter prompts or writes and whatever the
/// client answers meanwhile, the counter stays where it was before the
/// request.
pub proof fn lemma_count_kept_over_a_request_without_history(
    s: KernelState,
    req: ExecuteRequestView,
    rest: Seq<KernelEvent>,
)
    requires
        !req.store_history,
        no_requests(rest),
    ensures
        spec_run(spec_execute_request(s, req).state, rest).execution_count == s.execution_count,
    decreases rest.len(),
{
    if rest.len() > 0 {
        assert(!(rest[rest.len() - 1] is Execute));
        assert(no_requests(rest.drop_last())) by {
            assert forall|i: int| 0 <= i < rest.drop_last().len() implies !(
            #[trigger] rest.drop_last()[i] is Execute) by {
                assert(rest.drop_last()[i] == rest[i]);
            }
        }
        lemma_count_kept_over_a_request_without_history(s, req, rest.drop_last());
        lemma_only_counted_requests_move_the_count(
            spec_run(spec_execute_request(s, req).state, rest.drop_last()),
            rest.last(),
        );
    }
}

/// From an accepted request that stores history to any later point before
/// the next request, the counter is one above what it was before the
/// request.
pub proof fn lemma_count_one_up_over_a_request_with_history(
    s: KernelState,
    req: ExecuteRequestView,
    rest: Seq<KernelEvent>,
)
    requires
        s.phase == Phase::Idle,
        req.store_history,
        s.execution_count < u32::MAX,
        no_requests(rest),
    ensures
        spec_run(spec_execute_request(s, req).state, rest).execution_count == s.execution_count
            + 1,
    decreases rest.len(),
{
    if rest.len() > 0 {
        assert(!(rest[rest.len() - 1] is Execute));
        assert(no_requests(rest.drop_last())) by {
            assert forall|i: int| 0 <= i < rest.drop_last().len() implies !(
            #[trigger] rest.drop_last()[i] is Execute) by {
                assert(rest.drop_last()[i] == rest[i]);
            }
        }
        lemma_count_one_up_over_a_request_with_history(s, req, rest.drop_last());
        lemma_only_counted_requests_move_the_count(
            spec_run(spec_execute_request(s, req).state, rest.drop_last()),
            rest.last(),
        );
    }
}

/// Over any series of events the counter never goes down, and it goes up by
/// no more than the number of events, as long as it stays within `u32`.
pub proof fn lemma_count_never_decreases(s: KernelState, events: Seq<KernelEvent>)
    requires
        s.execution_count + events.len() <= u32::MAX,
    ensures
        s.execution_count <= spec_run(s, events).execution_count <= s.execution_count
            + events.len(),
    decreases events.len(),
{
    if events.len() > 0 {
        lemma_count_never_decreases(s, events.drop_last());
        lemma_only_counted_requests_move_the_count(
            spec_run(s, events.drop_last()),
            events.last(),
        );
    }
}

/// A prompt equal to the continuation prompt closes the outstanding request
/// as incomplete, with that one reply and nothing else, and the counter
/// stays where it was.
pub proof fn lemma_continuation_prompt_is_incomplete(
    s: KernelState,
    prompt: Seq<char>,
    default_prompt: Seq<char>,
)
    requires
        s.phase != Phase::Idle,
    ensures
        ({
            let t = spec_complete_execute_request(
                s,
                spec_prompt_info(prompt, prompt, default_prompt),
            );
            &&& t.actions == seq![
                spec_reply(s.originator, Status::Incomplete, s.execution_count),
            ]
            &&& t.state.execution_count == s.execution_count
            &&& t.state.phase == Phase::Idle
        }),
{
}

/// A prompt that is neither the continuation prompt nor the default one asks
/// the originating client for input, with the prompt's own text, and leaves
/// the request open: no reply is sent.
pub proof fn lemma_input_prompt_asks_the_client(
    s: KernelState,
    prompt: Seq<char>,
    continue_prompt: Seq<char>,
    default_prompt: Seq<char>,
)
    requires
        s.phase != Phase::Idle,
        prompt != continue_prompt,
        prompt != default_prompt,
    ensures
        ({
            let t = spec_complete_execute_request(
                s,
                spec_prompt_info(prompt, continue_prompt, default_prompt),
            );
            &&& t.actions == seq![
                KernelActionView::RequestInput { prompt, originator: s.originator },
            ]
            &&& t.state.phase == Phase::RequestingInput
            &&& t.state.execution_count == s.execution_count
        }),
{
}

/// A request is closed as successfully run only by a prompt that asks for
/// neither more code nor input, met while the request is outstanding; with
/// prompts classified against the configured ones, that is the default
/// prompt.
pub proof fn lemma_success_only_at_the_default_prompt(s: KernelState, e: KernelEvent, i: int)
    requires
        0 <= i < spec_step(s, e).actions.len(),
        is_success_reply(spec_step(s, e).actions[i]),
    ensures
        s.phase != Phase::Idle,
        match e {
            KernelEvent::Prompt(info) => !info.incomplete && !info.user_request,
            _ => false,
        },
        forall|prompt: Seq<char>, continue_prompt: Seq<char>, default_prompt: Seq<char>|
            e == KernelEvent::Prompt(
                #[trigger] spec_prompt_info(prompt, continue_prompt, default_prompt),
            ) ==> prompt == default_prompt,
{
}

/// While a request waits for the client's input, only the client's answer
/// lets it run on. Giving the request up ends it; every other event but a
/// prompt leaves it waiting.
pub proof fn lemma_input_request_waits_for_the_answer(s: KernelState, e: KernelEvent)
    requires
        s.phase == Phase::RequestingInput,
    ensures
        match e {
            KernelEvent::InputReply(answer) => spec_step(s, e).state.phase == Phase::Busy
                && spec_step(s, e).actions == seq![KernelActionView::ConsoleInput(answer)],
            KernelEvent::Prompt(_) => true,
            KernelEvent::Abandon => spec_step(s, e).state.phase == Phase::Idle && spec_step(
                s,
                e,
            ).actions.len() == 0,
            _ => spec_step(s, e).state.phase == Phase::RequestingInput,
        },
{
}

/// Everything the kernel asked for over a series of events, in order.
pub open spec fn spec_trace(s: KernelState, events: Seq<KernelEvent>) -> Seq<KernelActionView>
    decreases events.len(),
{
    if events.len() == 0 {
        Seq::empty()
    } else {
        spec_trace(s, events.drop_last()) + spec_step(
            spec_run(s, events.drop_last()),
            events.last(),
        ).actions
    }
}

/// The action closes a request that was taken: a reply that is no refusal.
pub open spec fn is_closing(a: KernelActionView) -> bool {
    match a {
        KernelActionView::Reply { reply, .. } => reply.status != Status::Error,
        _ => false,
    }
}

/// How many actions of a list close a request.
pub open spec fn closings(actions: Seq<KernelActionView>) -> nat
    decreases actions.len(),
{
    if actions.len() == 0 {
        0
    } else {
        closings(actions.drop_last()) + if is_closing(actions.last()) {
            1nat
        } else {
            0nat
        }
    }
}

/// How many requests of a series of events were taken: those that met a
/// kernel with nothing outstanding.
pub open spec fn accepted(s: KernelState, events: Seq<KernelEvent>) -> nat
    decreases events.len(),
{
    if events.len() == 0 {
        0
    } else {
        accepted(s, events.drop_last()) + if events.last() is Execute && spec_run(
            s,
            events.drop_last(),
        ).phase == Phase::Idle {
            1nat
        } else {
            0nat
        }
    }
}

/// How many requests were given up over a series of events: as many as the
/// events that gave up a request that was outstanding.
pub open spec fn abandoned(s: KernelState, events: Seq<KernelEvent>) -> nat
    decreases events.len(),
{
    if events.len() == 0 {
        0
    } else {
        abandoned(s, events.drop_last()) + if events.last() is Abandon && spec_run(
            s,
            events.drop_last(),
        ).phase != Phase::Idle {
            1nat
        } else {
            0nat
        }
    }
}

/// One where a request is outstanding, zero where none is.
pub open spec fn outstanding(s: KernelState) -> nat {
    if s.phase == Phase::Idle {
        0
    } else {
        1
    }
}

proof fn lemma_closings_push(actions: Seq<KernelActionView>, a: KernelActionView)
    ensures
        closings(actions.push(a)) == closings(actions) + if is_closing(a) {
            1nat
        } else {
            0nat
        },
{
    assert(actions.push(a).drop_last() =~= actions);
}

proof fn lemma_closings_concat(first: Seq<KernelActionView>, second: Seq<KernelActionView>)
    ensures
        closings(first + second) == closings(first) + closings(second),
    decreases second.len(),
{
    if second.len() == 0 {
        assert(first + second =~= first);
    } else {
        lemma_closings_concat(first, second.drop_last());
        assert((first + second).drop_last() =~= first + second.drop_last());
    }
}

proof fn lemma_step_closes_what_it_ends(s: KernelState, e: KernelEvent)
    ensures
        outstanding(s) + (if e is Execute && s.phase == Phase::Idle {
            1nat
        } else {
            0nat
        }) == closings(spec_step(s, e).actions) + (if e is Abandon && s.phase != Phase::Idle {
            1nat
        } else {
            0nat
        }) + outstanding(spec_step(s, e).state),
{
    let actions = spec_step(s, e).actions;
    let none = Seq::<KernelActionView>::empty();
    if actions.len() == 1 {
        assert(actions =~= none.push(actions[0]));
        lemma_closings_push(none, actions[0]);
    } else if actions.len() == 2 {
        assert(actions =~= none.push(actions[0]).push(actions[1]));
        lemma_closings_push(none, actions[0]);
        lemma_closings_push(none.push(actions[0]), actions[1]);
    }
}

/// Every request that the kernel takes is closed by exactly one reply or
/// given up, and no reply closes a request that was not taken: over any
/// series of events, the requests taken, with the one that was outstanding
/// at the start, are as many as the closing replies sent and the requests
/// given up, with the one still outstanding at the end.
pub proof fn lemma_one_reply_for_each_request(s: KernelState, events: Seq<KernelEvent>)
    ensures
        outstanding(s) + accepted(s, events) == closings(spec_trace(s, events)) + abandoned(
            s,
            events,
        ) + outstanding(spec_run(s, events)),
    decreases events.len(),
{
    if events.len() > 0 {
        let before = spec_run(s, events.drop_last());
        lemma_one_reply_for_each_request(s, events.drop_last());
        lemma_step_closes_what_it_ends(before, events.last());
        lemma_closings_concat(
            spec_trace(s, events.drop_last()),
            spec_step(before, events.last()).actions,
        );
    }
}

/// Whatever happened before, when the interpreter prompts for user input
/// while a request is outstanding, the request for input to the originating
/// client is the next thing the kernel asks for, and the request stays open:
/// a reply that finishes it can only come later.
pub proof fn lemma_input_request_comes_before_the_finish(
    s: KernelState,
    before: Seq<KernelEvent>,
    prompt: Seq<char>,
    continue_prompt: Seq<char>,
    default_prompt: Seq<char>,
)
    requires
        spec_run(s, before).phase != Phase::Idle,
        prompt != continue_prompt,
        prompt != default_prompt,
    ensures
        ({
            let event = KernelEvent::Prompt(
                spec_prompt_info(prompt, continue_prompt, default_prompt),
            );
            let now = spec_run(s, before);
            &&& spec_trace(s, before.push(event)) == spec_trace(s, before).push(
                KernelActionView::RequestInput { prompt, originator: now.originator },
            )
            &&& spec_run(s, before.push(event)).phase == Phase::RequestingInput
            &&& spec_run(s, before.push(event)).originator == now.originator
        }),
{
    let event = KernelEvent::Prompt(spec_prompt_info(prompt, continue_prompt, default_prompt));
    let now = spec_run(s, before);
    assert(before.push(event).drop_last() =~= before);
    lemma_input_prompt_asks_the_client(now, prompt, continue_prompt, default_prompt);
    assert(spec_trace(s, before) + seq![
        KernelActionView::RequestInput { prompt, originator: now.originator },
    ] =~= spec_trace(s, before).push(
        KernelActionView::RequestInput { prompt, originator: now.originator },
    ));
}

} // verus!
