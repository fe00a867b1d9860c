use crate::wire::string_views;
use crate::wire::CompleteReply;
use crate::wire::CompleteRequest;
use crate::wire::ExecuteReply;
use crate::wire::ExecuteRequest;
use crate::wire::ExecuteRequestView;
use crate::wire::ExecutionState;
use crate::wire::IsComplete;
use crate::wire::IsCompleteReply;
use crate::wire::IsCompleteRequest;
use crate::wire::KernelInfoReply;
use crate::wire::KernelInfoRequest;
use crate::wire::KernelStatus;
use crate::wire::LanguageInfo;
use crate::wire::Status;
use vstd::prelude::*;
use vstd::string::*;

verus! {

/// The content of a message that reaches the shell, from a client or from
/// the kernel.
#[derive(Clone, Debug, PartialEq, Eq)]
pub enum Message {
    KernelInfoRequest(KernelInfoRequest),
    IsCompleteRequest(IsCompleteRequest),
    ExecuteRequest(ExecuteRequest),
    CompleteRequest(CompleteRequest),
    ExecuteReply(ExecuteReply),
    Status(KernelStatus),
}

/// A message with its strings as sequences of characters.
pub ghost enum MessageView {
    KernelInfoRequest,
    IsCompleteRequest { code: Seq<char> },
    ExecuteRequest(ExecuteRequestView),
    CompleteRequest { code: Seq<char>, cursor_pos: u32 },
    ExecuteReply(ExecuteReply),
    Status(KernelStatus),
}

impl View for Message {
    type V = MessageView;

    open spec fn view(&self) -> MessageView {
        match self {
            Message::KernelInfoRequest(_) => MessageView::KernelInfoRequest,
            Message::IsCompleteRequest(r) => MessageView::IsCompleteRequest { code: r.code@ },
            Message::ExecuteRequest(r) => MessageView::ExecuteRequest(r@),
            Message::CompleteRequest(r) => MessageView::CompleteRequest {
                code: r.code@,
                cursor_pos: r.cursor_pos,
            },
            Message::ExecuteReply(r) => MessageView::ExecuteReply(*r),
            Message::Status(s) => MessageView::Status(*s),
        }
    }
}

/// A message with the identity that replies and status reports refer to.
#[derive(Clone, Debug, PartialEq, Eq)]
pub struct JupyterMessage {
    pub msg_id: u64,
    pub content: Message,
}

/// Why the shell did not serve a message.
#[derive(Clone, Debug, PartialEq, Eq)]
pub enum ShellError {
    /// The socket named here does not take this kind of message.
    UnsupportedMessage(String),
    /// The kernel's reply could not be received.
    ReceiveError(String),
    /// A request could not be handed to the kernel, or a reply could not be
    /// sent to the client.
    SendError(String),
    /// An execute request is still waiting for the kernel.
    RequestOutstanding,
}

/// An error with its text as a sequence of characters.
pub ghost enum ShellErrorView {
    UnsupportedMessage(Seq<char>),
    ReceiveError(Seq<char>),
    SendError(Seq<char>),
    RequestOutstanding,
}

impl View for ShellError {
    type V = ShellErrorView;

    open spec fn view(&self) -> ShellErrorView {
        match self {
            ShellError::UnsupportedMessage(s) => ShellErrorView::UnsupportedMessage(s@),
            ShellError::ReceiveError(s) => ShellErrorView::ReceiveError(s@),
            ShellError::SendError(s) => ShellErrorView::SendError(s@),
            ShellError::RequestOutstanding => ShellErrorView::RequestOutstanding,
        }
    }
}

/// What a reply on the shell socket holds.
#[derive(Clone, Debug, PartialEq, Eq)]
pub enum ReplyContent {
    KernelInfo(KernelInfoReply),
    IsComplete(IsCompleteReply),
    Complete(CompleteReply),
    Execute(ExecuteReply),
    /// The request failed as a whole, for this reason.
    Failure(ShellError),
}

/// The description of a language with its strings as sequences of
/// characters.
pub ghost struct LanguageInfoView {
    pub name: Seq<char>,
    pub version: Seq<char>,
    pub file_extension: Seq<char>,
    pub mimetype: Seq<char>,
    pub pygments_lexer: Seq<char>,
    pub codemirror_mode: Seq<char>,
    pub nbconvert_exporter: Seq<char>,
}

/// A reply with its strings as sequences of characters.
pub ghost enum ReplyView {
    KernelInfo {
        status: Status,
        banner: Seq<char>,
        debugger: bool,
        protocol_version: Seq<char>,
        help_links: Seq<Seq<char>>,
        language_info: LanguageInfoView,
    },
    IsComplete { status: IsComplete, indent: Seq<char> },
    Complete { matches: Seq<Seq<char>>, status: Status, cursor_start: u32, cursor_end: u32 },
    Execute(ExecuteReply),
    Failure(ShellErrorView),
}

/// The view of a language's description.
pub open spec fn language_view(info: LanguageInfo) -> LanguageInfoView {
    LanguageInfoView {
        name: info.name@,
        version: info.version@,
        file_extension: info.file_extension@,
        mimetype: info.mimetype@,
        pygments_lexer: info.pygments_lexer@,
        codemirror_mode: info.codemirror_mode@,
        nbconvert_exporter: info.nbconvert_exporter@,
    }
}

/// The view of the kernel's description of itself.
pub open spec fn info_reply_view(r: KernelInfoReply) -> ReplyView {
    ReplyView::KernelInfo {
        status: r.status,
        banner: r.banner@,
        debugger: r.debugger,
        protocol_version: r.protocol_version@,
        help_links: string_views(r.help_links@),
        language_info: language_view(r.language_info),
    }
}

/// The view of an answer to the question whether code is complete.
pub open spec fn is_complete_reply_view(r: IsCompleteReply) -> ReplyView {
    ReplyView::IsComplete { status: r.status, indent: r.indent@ }
}

/// The view of an answer to a request for completions.
pub open spec fn complete_reply_view(r: CompleteReply) -> ReplyView {
    ReplyView::Complete {
        matches: string_views(r.matches@),
        status: r.status,
        cursor_start: r.cursor_start,
        cursor_end: r.cursor_end,
    }
}

impl View for ReplyContent {
    type V = ReplyView;

    open spec fn view(&self) -> ReplyView {
        match self {
            ReplyContent::KernelInfo(r) => info_reply_view(*r),
            ReplyContent::IsComplete(r) => is_complete_reply_view(*r),
            ReplyContent::Complete(r) => complete_reply_view(*r),
            ReplyContent::Execute(r) => ReplyView::Execute(*r),
            ReplyContent::Failure(e) => ReplyView::Failure(e@),
        }
    }
}

/// Something the shell asks its surroundings to do, in the order given.
/// `parent` is the identity of the request that the action belongs to.
#[derive(Debug, PartialEq, Eq)]
pub enum ShellAction {
    /// Publish the kernel's execution state to the observers.
    Status { parent: u64, status: KernelStatus },
    /// Hand the execute request to the kernel.
    Forward { parent: u64, request: ExecuteRequest },
    /// Answer the client on the shell socket.
    Reply { parent: u64, content: ReplyContent },
}

/// A shell action by its view.
pub ghost enum ShellActionView {
    Status { parent: u64, state: ExecutionState },
    Forward { parent: u64, request: ExecuteRequestView },
    Reply { parent: u64, content: ReplyView },
}

impl View for ShellAction {
    type V = ShellActionView;

    open spec fn view(&self) -> ShellActionView {
        match self {
            ShellAction::Status { parent, status } => ShellActionView::Status {
                parent: *parent,
                state: status.execution_state,
            },
            ShellAction::Forward { parent, request } => ShellActionView::Forward {
                parent: *parent,
                request: request@,
            },
            ShellAction::Reply { parent, content } => ShellActionView::Reply {
                parent: *parent,
                content: content@,
            },
        }
    }
}

/// The actions of a list, each by its view.
pub open spec fn shell_action_views(actions: Seq<ShellAction>) -> Seq<ShellActionView> {
    actions.map_values(|a: ShellAction| a@)
}

/// What came of a message: the actions to perform, and whether the message
/// was served.
#[derive(Debug, PartialEq, Eq)]
pub struct Handled {
    pub actions: Vec<ShellAction>,
    pub result: Result<(), ShellError>,
}

/// Whether a message was served, with the error by its view.
pub open spec fn result_view(r: Result<(), ShellError>) -> Result<(), ShellErrorView> {
    match r {
        Ok(_) => Ok(()),
        Err(e) => Err(e@),
    }
}

/// Something that the shell's loop waited for.
#[derive(Debug, PartialEq, Eq)]
pub enum ShellEvent {
    /// No message could be read from the socket.
    ReadFailed,
    /// A client's message arrived.
    Inbound(JupyterMessage),
    /// The kernel answered the outstanding execute request.
    KernelReply(Message),
    /// The kernel's reply channel failed, with this description.
    KernelGone(String),
    /// The execute request could not be handed to the kernel, for the reason
    /// described.
    ForwardFailed(String),
    /// A reply could not be sent to the client, for the reason described.
    ReplyFailed(String),
}

/// A shell event by its view.
pub ghost enum ShellEventView {
    ReadFailed,
    Inbound { msg_id: u64, content: MessageView },
    KernelReply(MessageView),
    KernelGone(Seq<char>),
    ForwardFailed(Seq<char>),
    ReplyFailed(Seq<char>),
}

impl View for ShellEvent {
    type V = ShellEventView;

    open spec fn view(&self) -> ShellEventView {
        match self {
            ShellEvent::ReadFailed => ShellEventView::ReadFailed,
            ShellEvent::Inbound(m) => ShellEventView::Inbound {
                msg_id: m.msg_id,
                content: m.content@,
            },
            ShellEvent::KernelReply(m) => ShellEventView::KernelReply(m@),
            ShellEvent::KernelGone(e) => ShellEventView::KernelGone(e@),
            ShellEvent::ForwardFailed(e) => ShellEventView::ForwardFailed(e@),
            ShellEvent::ReplyFailed(e) => ShellEventView::ReplyFailed(e@),
        }
    }
}

/// The request dispatcher of the shell socket. It serves one message at a
/// time, and while an execute request waits for the kernel it takes no other.
#[derive(Debug, PartialEq, Eq)]
pub struct Shell {
    /// The version named in the kernel's banner.
    pub version: String,
    /// The execute request that waits for the kernel's reply.
    pub outstanding: Option<u64>,
}

/// The dispatcher's state with its version as a sequence of characters.
pub ghost struct ShellState {
    pub version: Seq<char>,
    pub outstanding: Option<u64>,
}

impl View for Shell {
    type V = ShellState;

    open spec fn view(&self) -> ShellState {
        ShellState { version: self.version@, outstanding: self.outstanding }
    }
}

/// A state, the actions that led to it, and whether the message was
/// served.
pub ghost struct ShellTransition {
    pub state: ShellState,
    pub actions: Seq<ShellActionView>,
    pub result: Result<(), ShellErrorView>,
}

/// The report of an execution state on behalf of a request.
pub open spec fn spec_send_state(parent: u64, state: ExecutionState) -> ShellActionView {
    ShellActionView::Status { parent, state }
}

/// A request that is answered on the spot: busy, the reply, idle.
pub open spec fn spec_handle_request(parent: u64, content: ReplyView) -> Seq<ShellActionView> {
    seq![
        spec_send_state(parent, ExecutionState::Busy),
        ShellActionView::Reply { parent, content },
        spec_send_state(parent, ExecutionState::Idle),
    ]
}

/// The kernel's description of itself: the banner names the version, the
/// protocol is 5.0, and the language is the echo language.
pub open spec fn spec_info_reply(version: Seq<char>) -> ReplyView {
    ReplyView::KernelInfo {
        status: Status::Success,
        banner: "Amalthea "@ + version,
        debugger: false,
        protocol_version: "5.0"@,
        help_links: Seq::empty(),
        language_info: LanguageInfoView {
            name: "Echo"@,
            version: "1.0"@,
            file_extension: ".ech"@,
            mimetype: "text/echo"@,
            pygments_lexer: Seq::empty(),
            codemirror_mode: Seq::empty(),
            nbconvert_exporter: Seq::empty(),
        },
    }
}

/// The answer to the question whether code is complete: it always is.
pub open spec fn spec_is_complete_reply() -> ReplyView {
    ReplyView::IsComplete { status: IsComplete::Complete, indent: Seq::empty() }
}

/// The answer to a request for completions: there are none.
pub open spec fn spec_complete_reply() -> ReplyView {
    ReplyView::Complete {
        matches: Seq::empty(),
        status: Status::Success,
        cursor_start: 0,
        cursor_end: 0,
    }
}

/// The error for a message that the shell socket does not take.
pub open spec fn spec_unsupported() -> ShellErrorView {
    ShellErrorView::UnsupportedMessage("Shell"@)
}

/// The reply that tells a client that its request failed as a whole.
pub open spec fn spec_failure(parent: u64, error: ShellErrorView) -> ShellActionView {
    ShellActionView::Reply { parent, content: ReplyView::Failure(error) }
}

/// A client's message arrives. While an execute request is outstanding it is
/// refused: the client is told so and nothing else is done. A request for
/// information is answered between a busy and an idle report. An execute
/// request is reported busy and handed to the kernel, and stays outstanding.
/// Any other message is not one for this socket, and the client is told so.
pub open spec fn spec_process_message(s: ShellState, msg_id: u64, content: MessageView)
    -> ShellTransition {
    if s.outstanding is Some {
        ShellTransition {
            state: s,
            actions: seq![spec_failure(msg_id, ShellErrorView::RequestOutstanding)],
            result: Err(ShellErrorView::RequestOutstanding),
        }
    } else {
        match content {
            MessageView::KernelInfoRequest => ShellTransition {
                state: s,
                actions: spec_handle_request(msg_id, spec_info_reply(s.version)),
                result: Ok(()),
            },
            MessageView::IsCompleteRequest { .. } => ShellTransition {
                state: s,
                actions: spec_handle_request(msg_id, spec_is_complete_reply()),
                result: Ok(()),
            },
            MessageView::CompleteRequest { .. } => ShellTransition {
                state: s,
                actions: spec_handle_request(msg_id, spec_complete_reply()),
                result: Ok(()),
            },
            MessageView::ExecuteRequest(request) => ShellTransition {
                state: ShellState { outstanding: Some(msg_id), ..s },
                actions: seq![
                    spec_send_state(msg_id, ExecutionState::Busy),
                    ShellActionView::Forward { parent: msg_id, request },
                ],
                result: Ok(()),
            },
            _ => ShellTransition {
                state: s,
                actions: seq![spec_failure(msg_id, spec_unsupported())],
                result: Err(spec_unsupported()),
            },
        }
    }
}

/// The wait for the kernel's reply ends. With nothing outstanding there is
/// no client to tell, and the message is an error for the log. Otherwise the
/// request is closed and reported idle whatever came. An execute reply goes
/// to the client first, as it is. Any other message is an error that the
/// client is told of. A failed channel is an error for the log: the request
/// is given up.
pub open spec fn spec_handle_execute_reply(s: ShellState, reply: Result<MessageView, Seq<char>>)
    -> ShellTransition {
    match s.outstanding {
        None => ShellTransition {
            state: s,
            actions: Seq::empty(),
            result: Err(spec_unsupported()),
        },
        Some(parent) => {
            let state = ShellState { outstanding: None, ..s };
            let idle = spec_send_state(parent, ExecutionState::Idle);
            match reply {
                Ok(MessageView::ExecuteReply(r)) => ShellTransition {
                    state,
                    actions: seq![
                        ShellActionView::Reply { parent, content: ReplyView::Execute(r) },
                        idle,
                    ],
                    result: Ok(()),
                },
                Ok(_) => ShellTransition {
                    state,
                    actions: seq![spec_failure(parent, spec_unsupported()), idle],
                    result: Err(spec_unsupported()),
                },
                Err(e) => ShellTransition {
                    state,
                    actions: seq![idle],
                    result: Err(ShellErrorView::ReceiveError(e)),
                },
            }
        },
    }
}

/// The execute request could not be handed to the kernel. No reply will
/// come, so the wait for one is not begun: the request is closed and
/// reported idle at once, and the failure is an error for the log.
pub open spec fn spec_forward_failed(s: ShellState, error: Seq<char>) -> ShellTransition {
    match s.outstanding {
        None => ShellTransition {
            state: s,
            actions: Seq::empty(),
            result: Err(ShellErrorView::SendError(error)),
        },
        Some(parent) => ShellTransition {
            state: ShellState { outstanding: None, ..s },
            actions: seq![spec_send_state(parent, ExecutionState::Idle)],
            result: Err(ShellErrorView::SendError(error)),
        },
    }
}

/// One turn of the shell's loop. A failed read changes nothing. A reply that
/// could not be sent changes nothing either, and is an error for the log.
pub open spec fn spec_listen(s: ShellState, event: ShellEventView) -> ShellTransition {
    match event {
        ShellEventView::ReadFailed => ShellTransition {
            state: s,
            actions: Seq::empty(),
            result: Ok(()),
        },
        ShellEventView::Inbound { msg_id, content } => spec_process_message(s, msg_id, content),
        ShellEventView::KernelReply(m) => spec_handle_execute_reply(s, Ok(m)),
        ShellEventView::KernelGone(e) => spec_handle_execute_reply(s, Err(e)),
        ShellEventView::ForwardFailed(e) => spec_forward_failed(s, e),
        ShellEventView::ReplyFailed(e) => ShellTransition {
            state: s,
            actions: Seq::empty(),
            result: Err(ShellErrorView::SendError(e)),
        },
    }
}

/// What the wait for the kernel brought, by its view.
pub open spec fn reply_event_view(reply: Result<Message, String>) -> Result<
    MessageView,
    Seq<char>,
> {
    match reply {
        Ok(m) => Ok(m@),
        Err(e) => Err(e@),
    }
}

impl Shell {
    /// The name of the socket that this dispatcher serves.
    pub fn name() -> (name: String)
        ensures
            name@ == "Shell"@,
    {
        "Shell".to_owned()
    }

    /// A dispatcher with nothing outstanding.
    pub fn new(version: String) -> (shell: Shell)
        ensures
            shell@ == (ShellState { version: version@, outstanding: None }),
    {
        Shell { version, outstanding: None }
    }

    /// One turn of the loop: takes what the wait brought and says what to
    /// do. An error is for the log; the loop goes on.
    pub fn listen(&mut self, event: ShellEvent) -> (handled: Handled)
        ensures
            final(self)@ == spec_listen(old(self)@, event@).state,
            shell_action_views(handled.actions@) == spec_listen(old(self)@, event@).actions,
            result_view(handled.result) == spec_listen(old(self)@, event@).result,
    {
        match event {
            ShellEvent::ReadFailed => {
                let actions: Vec<ShellAction> = Vec::new();
                assert(shell_action_views(actions@) =~= Seq::<ShellActionView>::empty());
                Handled { actions, result: Ok(()) }
            },
            ShellEvent::Inbound(msg) => self.process_message(msg),
            ShellEvent::KernelReply(m) => self.handle_execute_reply(Ok(m)),
            ShellEvent::KernelGone(e) => self.handle_execute_reply(Err(e)),
            ShellEvent::ForwardFailed(e) => self.handle_forward_failure(e),
            ShellEvent::ReplyFailed(e) => {
                let actions: Vec<ShellAction> = Vec::new();
                assert(shell_action_views(actions@) =~= Seq::<ShellActionView>::empty());
                Handled { actions, result: Err(ShellError::SendError(e)) }
            },
        }
    }

    /// The hand-over of the execute request to the kernel failed: the
    /// request is closed without a wait for a reply.
    pub fn handle_forward_failure(&mut self, error: String) -> (handled: Handled)
        ensures
            final(self)@ == spec_forward_failed(old(self)@, error@).state,
            shell_action_views(handled.actions@) == spec_forward_failed(
                old(self)@,
                error@,
            ).actions,
            result_view(handled.result) == spec_forward_failed(old(self)@, error@).result,
    {
        let mut actions: Vec<ShellAction> = Vec::new();
        match self.outstanding {
            Some(parent) => {
                self.outstanding = None;
                actions.push(Self::send_state(parent, ExecutionState::Idle));
            },
            None => {},
        }
        assert(shell_action_views(actions@) =~= spec_forward_failed(old(self)@, error@).actions);
        Handled { actions, result: Err(ShellError::SendError(error)) }
    }

    /// Serves one message from a client.
    pub fn process_message(&mut self, msg: JupyterMessage) -> (handled: Handled)
        ensures
            final(self)@ == spec_process_message(old(self)@, msg.msg_id, msg.content@).state,
            shell_action_views(handled.actions@) == spec_process_message(
                old(self)@,
                msg.msg_id,
                msg.content@,
            ).actions,
            result_view(handled.result) == spec_process_message(
                old(self)@,
                msg.msg_id,
                msg.content@,
            ).result,
    {
        let parent: u64 = msg.msg_id;
        if self.outstanding.is_some() {
            return Self::refuse(
                parent,
                ShellError::RequestOutstanding,
                ShellError::RequestOutstanding,
            );
        }
        match msg.content {
            Message::KernelInfoRequest(_) => {
                let reply = self.handle_info_request();
                Handled {
                    actions: Self::handle_request(parent, ReplyContent::KernelInfo(reply)),
                    result: Ok(()),
                }
            },
            Message::IsCompleteRequest(_) => {
                let reply = Self::handle_is_complete_request();
                Handled {
                    actions: Self::handle_request(parent, ReplyContent::IsComplete(reply)),
                    result: Ok(()),
                }
            },
            Message::CompleteRequest(_) => {
                let reply = Self::handle_complete_request();
                Handled {
                    actions: Self::handle_request(parent, ReplyContent::Complete(reply)),
                    result: Ok(()),
                }
            },
            Message::ExecuteRequest(request) => {
                let actions = self.handle_execute_request(parent, request);
                Handled { actions, result: Ok(()) }
            },
            _ => Self::refuse(
                parent,
                ShellError::UnsupportedMessage(Self::name()),
                ShellError::UnsupportedMessage(Self::name()),
            ),
        }
    }

    /// Refuses a request: the client is told why, and the same reason is
    /// handed back for the log.
    fn refuse(parent: u64, told: ShellError, logged: ShellError) -> (handled: Handled)
        ensures
            shell_action_views(handled.actions@) == seq![spec_failure(parent, told@)],
            result_view(handled.result) == Err::<(), ShellErrorView>(logged@),
    {
        let mut actions: Vec<ShellAction> = Vec::new();
        actions.push(ShellAction::Reply { parent, content: ReplyContent::Failure(told) });
        assert(shell_action_views(actions@) =~= seq![spec_failure(parent, told@)]);
        Handled { actions, result: Err(logged) }
    }

    /// Brackets the answer to a request with the busy and idle reports.
    pub fn handle_request(parent: u64, content: ReplyContent) -> (actions: Vec<ShellAction>)
        ensures
            shell_action_views(actions@) == spec_handle_request(parent, content@),
    {
        let mut actions: Vec<ShellAction> = Vec::new();
        actions.push(Self::send_state(parent, ExecutionState::Busy));
        actions.push(ShellAction::Reply { parent, content });
        actions.push(Self::send_state(parent, ExecutionState::Idle));
        assert(shell_action_views(actions@) =~= spec_handle_request(parent, content@));
        actions
    }

    /// The report of an execution state on behalf of a request.
    pub fn send_state(parent: u64, state: ExecutionState) -> (action: ShellAction)
        ensures
            action@ == spec_send_state(parent, state),
    {
        ShellAction::Status { parent, status: KernelStatus { execution_state: state } }
    }

    /// The first half of an execute request: it is reported busy, handed to
    /// the kernel, and stays outstanding until the kernel's reply.
    pub fn handle_execute_request(&mut self, parent: u64, request: ExecuteRequest) -> (actions:
        Vec<ShellAction>)
        ensures
            final(self)@ == (ShellState { outstanding: Some(parent), ..old(self)@ }),
            shell_action_views(actions@) == seq![
                spec_send_state(parent, ExecutionState::Busy),
                ShellActionView::Forward { parent, request: request@ },
            ],
    {
        let mut actions: Vec<ShellAction> = Vec::new();
        actions.push(Self::send_state(parent, ExecutionState::Busy));
        actions.push(ShellAction::Forward { parent, request });
        self.outstanding = Some(parent);
        assert(shell_action_views(actions@) =~= seq![
            spec_send_state(parent, ExecutionState::Busy),
            ShellActionView::Forward { parent, request: request@ },
        ]);
        actions
    }

    /// The second half of an execute request: what the wait for the kernel's
    /// reply brought.
    pub fn handle_execute_reply(&mut self, reply: Result<Message, String>) -> (handled: Handled)
        ensures
            final(self)@ == spec_handle_execute_reply(old(self)@, reply_event_view(reply)).state,
            shell_action_views(handled.actions@) == spec_handle_execute_reply(
                old(self)@,
                reply_event_view(reply),
            ).actions,
            result_view(handled.result) == spec_handle_execute_reply(
                old(self)@,
                reply_event_view(reply),
            ).result,
    {
        let mut actions: Vec<ShellAction> = Vec::new();
        let parent: u64 = match self.outstanding {
            Some(p) => p,
            None => {
                assert(shell_action_views(actions@) =~= Seq::<ShellActionView>::empty());
                return Handled {
                    actions,
                    result: Err(ShellError::UnsupportedMessage(Self::name())),
                };
            },
        };
        self.outstanding = None;
        let result: Result<(), ShellError> = match reply {
            Ok(Message::ExecuteReply(r)) => {
                actions.push(ShellAction::Reply { parent, content: ReplyContent::Execute(r) });
                Ok(())
            },
            Ok(_) => {
                let told = ShellError::UnsupportedMessage(Self::name());
                actions.push(ShellAction::Reply { parent, content: ReplyContent::Failure(told) });
                Err(ShellError::UnsupportedMessage(Self::name()))
            },
            Err(e) => Err(ShellError::ReceiveError(e)),
        };
        actions.push(Self::send_state(parent, ExecutionState::Idle));
        assert(shell_action_views(actions@) =~= spec_handle_execute_reply(
            old(self)@,
            reply_event_view(reply),
        ).actions);
        Handled { actions, result }
    }

    /// Code is always complete as far as the shell can tell.
    pub fn handle_is_complete_request() -> (reply: IsCompleteReply)
        ensures
            is_complete_reply_view(reply) == spec_is_complete_reply(),
    {
        IsCompleteReply { status: IsComplete::Complete, indent: String::new() }
    }

    /// The kernel's description of itself.
    pub fn handle_info_request(&self) -> (reply: KernelInfoReply)
        ensures
            info_reply_view(reply) == spec_info_reply(self.version@),
    {
        let info = LanguageInfo {
            name: "Echo".to_owned(),
            version: "1.0".to_owned(),
            file_extension: ".ech".to_owned(),
            mimetype: "text/echo".to_owned(),
            pygments_lexer: String::new(),
            codemirror_mode: String::new(),
            nbconvert_exporter: String::new(),
        };
        let help_links: Vec<String> = Vec::new();
        assert(string_views(help_links@) =~= Seq::<Seq<char>>::empty());
        KernelInfoReply {
            status: Status::Success,
            banner: "Amalthea ".to_owned().concat(self.version.as_str()),
            debugger: false,
            protocol_version: "5.0".to_owned(),
            help_links,
            language_info: info,
        }
    }

    /// The shell has no completions to offer.
    pub fn handle_complete_request() -> (reply: CompleteReply)
        ensures
            complete_reply_view(reply) == spec_complete_reply(),
    {
        let matches: Vec<String> = Vec::new();
        assert(string_views(matches@) =~= Seq::<Seq<char>>::empty());
        CompleteReply { matches, status: Status::Success, cursor_start: 0, cursor_end: 0 }
    }
}

} // verus!
