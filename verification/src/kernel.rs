use crate::console::r_write_console;
use crate::prompt::prompt_info;
use crate::prompt::spec_prompt_info;
use crate::prompt::PromptInfo;
use crate::prompt::PromptView;
use crate::wire::spec_stream_of;
use crate::wire::ExecuteInput;
use crate::wire::ExecuteReply;
use crate::wire::ExecuteRequest;
use crate::wire::ExecuteRequestView;
use crate::wire::ExecuteResult;
use crate::wire::IOPubMessage;
use crate::wire::IOPubView;
use crate::wire::InputRequest;
use crate::wire::Status;
use crate::wire::Stream;
use vstd::prelude::*;
use vstd::string::*;

verus! {

/// Where the kernel stands with the request it was given.
#[derive(Clone, Copy, Debug, PartialEq, Eq, Structural)]
pub enum Phase {
    /// No request is outstanding.
    Idle,
    /// The interpreter is running the request's code.
    Busy,
    /// Running code asked for a line of input; the client's answer is awaited.
    RequestingInput,
}

/// Something the kernel asks its surroundings to do, in the order given.
#[derive(Debug, PartialEq, Eq)]
pub enum KernelAction {
    /// Publish a message to all observers.
    Broadcast(IOPubMessage),
    /// Close a request with this reply, for the client named where it is
    /// known.
    Reply { originator: Option<u64>, reply: ExecuteReply },
    /// Ask the originating client for input.
    RequestInput(InputRequest),
    /// Hand a line to the interpreter's console, or the sign that input ended.
    ConsoleInput(Option<String>),
}

/// A kernel action with its strings as sequences of characters.
pub ghost enum KernelActionView {
    Broadcast(IOPubView),
    Reply { originator: Option<u64>, reply: ExecuteReply },
    RequestInput { prompt: Seq<char>, originator: Option<u64> },
    ConsoleInput(Option<Seq<char>>),
}

impl View for KernelAction {
    type V = KernelActionView;

    open spec fn view(&self) -> KernelActionView {
        match self {
            KernelAction::Broadcast(m) => KernelActionView::Broadcast(m@),
            KernelAction::Reply { originator, reply } => KernelActionView::Reply {
                originator: *originator,
                reply: *reply,
            },
            KernelAction::RequestInput(r) => KernelActionView::RequestInput {
                prompt: r.prompt@,
                originator: r.originator,
            },
            KernelAction::ConsoleInput(Some(line)) => KernelActionView::ConsoleInput(Some(line@)),
            KernelAction::ConsoleInput(None) => KernelActionView::ConsoleInput(None),
        }
    }
}

/// The actions of a list, each by its view.
pub open spec fn action_views(actions: Seq<KernelAction>) -> Seq<KernelActionView> {
    actions.map_values(|a: KernelAction| a@)
}

/// The kernel's side of the execute-request protocol: the execution counter
/// and the state of the one request that may be outstanding.
#[derive(Debug, PartialEq, Eq)]
pub struct RKernel {
    /// How many requests that store history were accepted so far.
    pub execution_count: u32,
    pub phase: Phase,
    /// The client behind the outstanding request.
    pub originator: Option<u64>,
    /// Whether the outstanding request is silent.
    pub silent: bool,
    /// Standard output gathered since the outstanding request began.
    pub output: String,
}

/// The kernel's state with its gathered output as a sequence of
/// characters.
pub ghost struct KernelState {
    pub execution_count: u32,
    pub phase: Phase,
    pub originator: Option<u64>,
    pub silent: bool,
    pub output: Seq<char>,
}

impl View for RKernel {
    type V = KernelState;

    open spec fn view(&self) -> KernelState {
        KernelState {
            execution_count: self.execution_count,
            phase: self.phase,
            originator: self.originator,
            silent: self.silent,
            output: self.output@,
        }
    }
}

/// A state and the actions that led to it.
pub ghost struct Transition {
    pub state: KernelState,
    pub actions: Seq<KernelActionView>,
}

/// The state of a kernel that has seen nothing yet.
pub open spec fn spec_initial() -> KernelState {
    KernelState {
        execution_count: 0,
        phase: Phase::Idle,
        originator: None,
        silent: false,
        output: Seq::empty(),
    }
}

/// The state with no request outstanding and the counter as it is.
pub open spec fn spec_at_rest(s: KernelState) -> KernelState {
    KernelState {
        execution_count: s.execution_count,
        phase: Phase::Idle,
        originator: None,
        silent: false,
        output: Seq::empty(),
    }
}

/// The counter after a request is accepted.
pub open spec fn spec_next_count(count: u32, store_history: bool) -> u32 {
    if store_history {
        (count + 1) as u32
    } else {
        count
    }
}

/// The reply that closes a request.
pub open spec fn spec_reply(originator: Option<u64>, status: Status, execution_count: u32)
    -> KernelActionView {
    KernelActionView::Reply { originator, reply: ExecuteReply { status, execution_count } }
}

/// An execute request arrives. While another is outstanding it is refused
/// with an error reply to its own client and nothing else changes. Otherwise
/// the counter moves first, then the echo goes out unless the request is
/// silent, then the code goes to the console.
pub open spec fn spec_execute_request(s: KernelState, req: ExecuteRequestView) -> Transition {
    if s.phase != Phase::Idle {
        Transition {
            state: s,
            actions: seq![spec_reply(req.originator, Status::Error, s.execution_count)],
        }
    } else {
        let count = spec_next_count(s.execution_count, req.store_history);
        let echo = KernelActionView::Broadcast(
            IOPubView::ExecuteInput { code: req.code, execution_count: count },
        );
        let feed = KernelActionView::ConsoleInput(Some(req.code));
        Transition {
            state: KernelState {
                execution_count: count,
                phase: Phase::Busy,
                originator: req.originator,
                silent: req.silent,
                output: Seq::empty(),
            },
            actions: if req.silent {
                seq![feed]
            } else {
                seq![echo, feed]
            },
        }
    }
}

/// The interpreter prompts again. With no request outstanding nothing
/// happens. A continuation prompt closes the request as incomplete, whatever
/// else the prompt is. Any other prompt that is not the default one asks the
/// originating client for input and leaves the request open. The default
/// prompt finishes the request.
pub open spec fn spec_complete_execute_request(s: KernelState, info: PromptView) -> Transition {
    if s.phase == Phase::Idle {
        Transition { state: s, actions: Seq::empty() }
    } else if info.incomplete {
        Transition {
            state: spec_at_rest(s),
            actions: seq![spec_reply(s.originator, Status::Incomplete, s.execution_count)],
        }
    } else if info.user_request {
        Transition {
            state: KernelState { phase: Phase::RequestingInput, ..s },
            actions: seq![
                KernelActionView::RequestInput { prompt: info.prompt, originator: s.originator },
            ],
        }
    } else {
        let result = KernelActionView::Broadcast(
            IOPubView::ExecuteResult { execution_count: s.execution_count, data: s.output },
        );
        let reply = spec_reply(s.originator, Status::Success, s.execution_count);
        Transition {
            state: spec_at_rest(s),
            actions: if !s.silent && s.output.len() > 0 {
                seq![result, reply]
            } else {
                seq![reply]
            },
        }
    }
}

/// The client answers an input request: the answer goes to the console and
/// the request runs on. An answer that nothing asked for is dropped.
pub open spec fn spec_input_reply(s: KernelState, answer: Option<Seq<char>>) -> Transition {
    if s.phase == Phase::RequestingInput {
        Transition {
            state: KernelState { phase: Phase::Busy, ..s },
            actions: seq![KernelActionView::ConsoleInput(answer)],
        }
    } else {
        Transition { state: s, actions: Seq::empty() }
    }
}

/// The interpreter writes output: it is published with its stream, and what
/// goes to standard output while a request is outstanding is gathered for
/// the request's result.
pub open spec fn spec_write_console(s: KernelState, content: Seq<char>, otype: i32) -> Transition {
    Transition {
        state: if s.phase != Phase::Idle && spec_stream_of(otype) == Stream::Stdout {
            KernelState { output: s.output + content, ..s }
        } else {
            s
        },
        actions: seq![
            KernelActionView::Broadcast(
                IOPubView::Stream { stream: spec_stream_of(otype), text: content },
            ),
        ],
    }
}

/// The views of an optional line.
pub open spec fn line_view(line: Option<String>) -> Option<Seq<char>> {
    match line {
        Some(l) => Some(l@),
        None => None,
    }
}

impl RKernel {
    /// A kernel at process start: the counter at zero, nothing outstanding.
    pub fn new() -> (kernel: RKernel)
        ensures
            kernel@ == spec_initial(),
    {
        RKernel {
            execution_count: 0,
            phase: Phase::Idle,
            originator: None,
            silent: false,
            output: String::new(),
        }
    }

    fn rest(&mut self)
        ensures
            final(self)@ == spec_at_rest(old(self)@),
    {
        self.phase = Phase::Idle;
        self.originator = None;
        self.silent = false;
        self.output = String::new();
    }

    /// Takes an execute request. The counter cannot pass `u32::MAX`.
    pub fn execute_request(&mut self, req: ExecuteRequest) -> (actions: Vec<KernelAction>)
        requires
            old(self).phase == Phase::Idle && req.store_history ==> old(self).execution_count
                < u32::MAX,
        ensures
            final(self)@ == spec_execute_request(old(self)@, req@).state,
            action_views(actions@) == spec_execute_request(old(self)@, req@).actions,
    {
        let mut actions: Vec<KernelAction> = Vec::new();
        match self.phase {
            Phase::Idle => {},
            _ => {
                actions.push(
                    KernelAction::Reply {
                        originator: req.originator,
                        reply: ExecuteReply {
                            status: Status::Error,
                            execution_count: self.execution_count,
                        },
                    },
                );
                assert(action_views(actions@) =~= spec_execute_request(
                    old(self)@,
                    req@,
                ).actions);
                return actions;
            },
        }
        if req.store_history {
            self.execution_count = self.execution_count + 1;
        }
        if !req.silent {
            actions.push(
                KernelAction::Broadcast(
                    IOPubMessage::ExecuteInput(
                        ExecuteInput {
                            code: req.code.clone(),
                            execution_count: self.execution_count,
                        },
                    ),
                ),
            );
        }
        self.phase = Phase::Busy;
        self.originator = req.originator;
        self.silent = req.silent;
        self.output = String::new();
        actions.push(KernelAction::ConsoleInput(Some(req.code)));
        assert(action_views(actions@) =~= spec_execute_request(old(self)@, req@).actions);
        actions
    }

    /// Decides what the interpreter's next prompt means for the outstanding
    /// request.
    pub fn complete_execute_request(&mut self, info: PromptInfo) -> (actions: Vec<KernelAction>)
        ensures
            final(self)@ == spec_complete_execute_request(old(self)@, info@).state,
            action_views(actions@) == spec_complete_execute_request(old(self)@, info@).actions,
    {
        let mut actions: Vec<KernelAction> = Vec::new();
        match self.phase {
            Phase::Idle => {
                assert(action_views(actions@) =~= Seq::<KernelActionView>::empty());
                return actions;
            },
            _ => {},
        }
        let count: u32 = self.execution_count;
        if info.incomplete {
            actions.push(
                KernelAction::Reply {
                    originator: self.originator,
                    reply: ExecuteReply { status: Status::Incomplete, execution_count: count },
                },
            );
            self.rest();
        } else if info.user_request {
            actions.push(
                KernelAction::RequestInput(
                    InputRequest { prompt: info.prompt, originator: self.originator },
                ),
            );
            self.phase = Phase::RequestingInput;
        } else {
            if !self.silent && !self.output.as_str().is_empty() {
                actions.push(
                    KernelAction::Broadcast(
                        IOPubMessage::ExecuteResult(
                            ExecuteResult { execution_count: count, data: self.output.clone() },
                        ),
                    ),
                );
            }
            actions.push(
                KernelAction::Reply {
                    originator: self.originator,
                    reply: ExecuteReply { status: Status::Success, execution_count: count },
                },
            );
            self.rest();
        }
        assert(action_views(actions@) =~= spec_complete_execute_request(
            old(self)@,
            info@,
        ).actions);
        actions
    }

    /// The interpreter asks for console input with `prompt`: the prompt is
    /// classified against the two configured prompts and the outstanding
    /// request decided on it.
    pub fn read_console(
        &mut self,
        prompt: String,
        continue_prompt: &String,
        default_prompt: &String,
    ) -> (actions: Vec<KernelAction>)
        ensures
            final(self)@ == spec_complete_execute_request(
                old(self)@,
                spec_prompt_info(prompt@, continue_prompt@, default_prompt@),
            ).state,
            action_views(actions@) == spec_complete_execute_request(
                old(self)@,
                spec_prompt_info(prompt@, continue_prompt@, default_prompt@),
            ).actions,
    {
        let info = prompt_info(prompt, continue_prompt, default_prompt);
        self.complete_execute_request(info)
    }

    /// Gives up the outstanding request without a reply, for when there is
    /// no one left to reply to: nothing is outstanding afterwards, and the
    /// counter stays as it is.
    pub fn abandon_request(&mut self)
        ensures
            final(self)@ == spec_at_rest(old(self)@),
    {
        self.rest();
    }

    /// Takes the client's answer to an input request.
    pub fn input_reply(&mut self, answer: Option<String>) -> (actions: Vec<KernelAction>)
        ensures
            final(self)@ == spec_input_reply(old(self)@, line_view(answer)).state,
            action_views(actions@) == spec_input_reply(old(self)@, line_view(answer)).actions,
    {
        let mut actions: Vec<KernelAction> = Vec::new();
        match self.phase {
            Phase::RequestingInput => {
                self.phase = Phase::Busy;
                actions.push(KernelAction::ConsoleInput(answer));
            },
            _ => {},
        }
        assert(action_views(actions@) =~= spec_input_reply(old(self)@, line_view(answer)).actions);
        actions
    }

    /// Takes output that the interpreter wrote.
    pub fn write_console(&mut self, content: String, otype: i32) -> (actions: Vec<KernelAction>)
        ensures
            final(self)@ == spec_write_console(old(self)@, content@, otype).state,
            action_views(actions@) == spec_write_console(old(self)@, content@, otype).actions,
    {
        let mut actions: Vec<KernelAction> = Vec::new();
        let out = r_write_console(content, otype);
        match (self.phase, out.stream) {
            (Phase::Idle, _) => {},
            (_, Stream::Stdout) => {
                self.output.append(out.text.as_str());
            },
            _ => {},
        }
        actions.push(KernelAction::Broadcast(IOPubMessage::Stream(out)));
        assert(action_views(actions@) =~= spec_write_console(old(self)@, content@, otype).actions);
        actions
    }
}

} // verus!
