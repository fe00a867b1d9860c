use crate::shell::spec_failure;
use crate::shell::spec_listen;
use crate::shell::MessageView;
use crate::shell::ReplyView;
use crate::shell::ShellErrorView;
use crate::shell::ShellActionView;
use crate::shell::ShellEventView;
use crate::shell::ShellState;
use crate::wire::ExecutionState;
use vstd::prelude::*;

verus! {

/// How one action moves the busy interval. `open` is the request that was
/// reported busy and not yet idle. A busy report is in order only while none
/// is open, and opens its request. An idle report is in order only for the
/// open request, and closes it. A request handed to the kernel, and a reply
/// that answers a request, are in order only inside the interval of their
/// own request. A reply that refuses a request is in order anywhere and
/// moves nothing. `None` says that the action is out of order.
pub open spec fn advance(open: Option<u64>, action: ShellActionView) -> Option<Option<u64>> {
    match action {
        ShellActionView::Status { parent, state: ExecutionState::Busy } => if open is None {
            Some(Some(parent))
        } else {
            None
        },
        ShellActionView::Status { parent, state: ExecutionState::Idle } => if open == Some(
            parent,
        ) {
            Some(None)
        } else {
            None
        },
        ShellActionView::Forward { parent, .. } => if open == Some(parent) {
            Some(open)
        } else {
            None
        },
        ShellActionView::Reply { content: ReplyView::Failure(_), .. } => Some(open),
        ShellActionView::Reply { parent, .. } => if open == Some(parent) {
            Some(open)
        } else {
            None
        },
    }
}

/// Reads a series of actions from the left. The result is the request left
/// open at the end, or `None` if some action was out of order.
pub open spec fn scan(open: Option<u64>, actions: Seq<ShellActionView>) -> Option<Option<u64>>
    decreases actions.len(),
{
    if actions.len() == 0 {
        Some(open)
    } else {
        match scan(open, actions.drop_last()) {
            None => None,
            Some(o) => advance(o, actions.last()),
        }
    }
}

/// A dispatcher's state together with everything it asked for so far.
pub ghost struct ShellRun {
    pub state: ShellState,
    pub actions: Seq<ShellActionView>,
}

/// The dispatcher's loop over a series of events.
pub open spec fn spec_shell_run(s: ShellState, events: Seq<ShellEventView>) -> ShellRun
    decreases events.len(),
{
    if events.len() == 0 {
        ShellRun { state: s, actions: Seq::empty() }
    } else {
        let before = spec_shell_run(s, events.drop_last());
        let t = spec_listen(before.state, events.last());
        ShellRun { state: t.state, actions: before.actions + t.actions }
    }
}

proof fn lemma_scan_push(open: Option<u64>, actions: Seq<ShellActionView>, a: ShellActionView)
    ensures
        scan(open, actions.push(a)) == match scan(open, actions) {
            None => None,
            Some(o) => advance(o, a),
        },
{
    assert(actions.push(a).drop_last() =~= actions);
}

proof fn lemma_scan_concat(
    open: Option<u64>,
    first: Seq<ShellActionView>,
    second: Seq<ShellActionView>,
)
    ensures
        scan(open, first + second) == match scan(open, first) {
            None => None,
            Some(o) => scan(o, second),
        },
    decreases second.len(),
{
    if second.len() == 0 {
        assert(first + second =~= first);
    } else {
        lemma_scan_concat(open, first, second.drop_last());
        assert((first + second).drop_last() =~= first + second.drop_last());
    }
}

/// One turn of the loop keeps the reports in order: read from the request
/// that was outstanding before, the turn's actions end at the request that is
/// outstanding after.
pub proof fn lemma_turn_keeps_order(s: ShellState, event: ShellEventView)
    ensures
        scan(s.outstanding, spec_listen(s, event).actions) == Some(
            spec_listen(s, event).state.outstanding,
        ),
{
    let actions = spec_listen(s, event).actions;
    let none = Seq::<ShellActionView>::empty();
    if actions.len() == 1 {
        assert(actions =~= none.push(actions[0]));
        lemma_scan_push(s.outstanding, none, actions[0]);
    } else if actions.len() == 2 {
        assert(actions =~= none.push(actions[0]).push(actions[1]));
        lemma_scan_push(s.outstanding, none, actions[0]);
        lemma_scan_push(s.outstanding, none.push(actions[0]), actions[1]);
    } else if actions.len() == 3 {
        assert(actions =~= none.push(actions[0]).push(actions[1]).push(actions[2]));
        lemma_scan_push(s.outstanding, none, actions[0]);
        lemma_scan_push(s.outstanding, none.push(actions[0]), actions[1]);
        lemma_scan_push(s.outstanding, none.push(actions[0]).push(actions[1]), actions[2]);
    }
}

/// Over any series of events, the busy and idle reports of a request come
/// in that order, with no report, reply or hand-over of another request
/// between them, and every reply and hand-over lies inside the interval of
/// its own request. The request left open at the end is the outstanding one.
pub proof fn lemma_reports_are_bracketed(s: ShellState, events: Seq<ShellEventView>)
    ensures
        scan(s.outstanding, spec_shell_run(s, events).actions) == Some(
            spec_shell_run(s, events).state.outstanding,
        ),
    decreases events.len(),
{
    if events.len() > 0 {
        let before = spec_shell_run(s, events.drop_last());
        lemma_reports_are_bracketed(s, events.drop_last());
        lemma_turn_keeps_order(before.state, events.last());
        lemma_scan_concat(
            s.outstanding,
            before.actions,
            spec_listen(before.state, events.last()).actions,
        );
    }
}

/// While an execute request is outstanding, a second request of any kind is
/// refused: its client is told so, the state stays as it is, and nothing is
/// reported or handed to the kernel on its behalf.
pub proof fn lemma_second_request_is_refused(s: ShellState, msg_id: u64, content: MessageView)
    requires
        s.outstanding is Some,
    ensures
        spec_listen(s, ShellEventView::Inbound { msg_id, content }).state == s,
        spec_listen(s, ShellEventView::Inbound { msg_id, content }).actions == seq![
            spec_failure(msg_id, ShellErrorView::RequestOutstanding),
        ],
        spec_listen(s, ShellEventView::Inbound { msg_id, content }).result == Err::<
            (),
            ShellErrorView,
        >(ShellErrorView::RequestOutstanding),
{
}

} // verus!
