use vstd::prelude::*;

verus! {

/// The stream a piece of console output belongs to.
#[derive(Clone, Copy, Debug, PartialEq, Eq, Structural)]
pub enum Stream {
    Stdout,
    Stderr,
}

/// Whether the kernel is working on a request.
#[derive(Clone, Copy, Debug, PartialEq, Eq, Structural)]
pub enum ExecutionState {
    Busy,
    Idle,
}

/// How a request ended, as the client is told.
#[derive(Clone, Copy, Debug, PartialEq, Eq, Structural)]
pub enum Status {
    /// The request ran to its end; the wire calls this status `ok`.
    Success,
    Error,
    Incomplete,
}

/// A request to run code in the interpreter.
#[derive(Clone, Debug, PartialEq, Eq)]
pub struct ExecuteRequest {
    /// The source to run.
    pub code: String,
    /// The client that sent the request, where it is known.
    pub originator: Option<u64>,
    /// Whether the request counts in the execution history.
    pub store_history: bool,
    /// Whether the code is kept from the observers.
    pub silent: bool,
}

/// An execute request with its code as a sequence of characters.
pub ghost struct ExecuteRequestView {
    pub code: Seq<char>,
    pub originator: Option<u64>,
    pub store_history: bool,
    pub silent: bool,
}

impl View for ExecuteRequest {
    type V = ExecuteRequestView;

    open spec fn view(&self) -> ExecuteRequestView {
        ExecuteRequestView {
            code: self.code@,
            originator: self.originator,
            store_history: self.store_history,
            silent: self.silent,
        }
    }
}

/// The reply that closes an execute request.
#[derive(Clone, Copy, Debug, PartialEq, Eq, Structural)]
pub struct ExecuteReply {
    pub status: Status,
    pub execution_count: u32,
}

/// Tells the observers which code is about to run.
#[derive(Clone, Debug, PartialEq, Eq)]
pub struct ExecuteInput {
    pub code: String,
    pub execution_count: u32,
}

/// The result of a finished execution.
#[derive(Clone, Debug, PartialEq, Eq)]
pub struct ExecuteResult {
    pub execution_count: u32,
    /// The plain-text rendering of the result.
    pub data: String,
}

/// Console output, tagged with its stream.
#[derive(Clone, Debug, PartialEq, Eq)]
pub struct StreamOutput {
    pub stream: Stream,
    pub text: String,
}

/// Asks a client for a line of input on behalf of running code.
#[derive(Clone, Debug, PartialEq, Eq)]
pub struct InputRequest {
    /// The prompt exactly as the interpreter gave it.
    pub prompt: String,
    pub originator: Option<u64>,
}

/// A message for the broadcast channel.
#[derive(Clone, Debug, PartialEq, Eq)]
pub enum IOPubMessage {
    ExecuteInput(ExecuteInput),
    ExecuteResult(ExecuteResult),
    Status(ExecutionState),
    Stream(StreamOutput),
}

/// A broadcast message with its strings as sequences of characters.
pub ghost enum IOPubView {
    ExecuteInput { code: Seq<char>, execution_count: u32 },
    ExecuteResult { execution_count: u32, data: Seq<char> },
    Status(ExecutionState),
    Stream { stream: Stream, text: Seq<char> },
}

impl View for IOPubMessage {
    type V = IOPubView;

    open spec fn view(&self) -> IOPubView {
        match self {
            IOPubMessage::ExecuteInput(m) => IOPubView::ExecuteInput {
                code: m.code@,
                execution_count: m.execution_count,
            },
            IOPubMessage::ExecuteResult(m) => IOPubView::ExecuteResult {
                execution_count: m.execution_count,
                data: m.data@,
            },
            IOPubMessage::Status(s) => IOPubView::Status(*s),
            IOPubMessage::Stream(m) => IOPubView::Stream { stream: m.stream, text: m.text@ },
        }
    }
}

/// The stream that the interpreter's output discriminant stands for: zero is
/// standard output, anything else the error stream.
pub open spec fn spec_stream_of(otype: i32) -> Stream {
    if otype == 0 {
        Stream::Stdout
    } else {
        Stream::Stderr
    }
}

/// The stream that an output discriminant stands for.
pub fn stream_of(otype: i32) -> (stream: Stream)
    ensures
        stream == spec_stream_of(otype),
{
    if otype == 0 {
        Stream::Stdout
    } else {
        Stream::Stderr
    }
}

/// The socket a kind of message travels on.
#[derive(Clone, Copy, Debug, PartialEq, Eq, Structural)]
pub enum SocketType {
    Shell,
    IOPub,
    Heartbeat,
    Stdin,
    Control,
}

/// Asks the kernel to describe itself.
#[derive(Clone, Copy, Debug, PartialEq, Eq, Structural)]
pub struct KernelInfoRequest {}

impl KernelInfoRequest {
    /// The name of this kind of message on the wire.
    pub fn message_type() -> (name: String)
        ensures
            name@ == "kernel_info_request"@,
    {
        "kernel_info_request".to_owned()
    }

    /// The socket on which this kind of message travels.
    pub fn socket_type() -> (socket: SocketType)
        ensures
            socket == SocketType::Shell,
    {
        SocketType::Shell
    }
}

/// An error raised by code under execution.
#[derive(Clone, Debug, PartialEq, Eq)]
pub struct Exception {
    /// The name of the error.
    pub ename: String,
    /// What the error says.
    pub evalue: String,
    /// The call stack at the error, one line each.
    pub traceback: Vec<String>,
}

/// Tells the observers that an execution failed.
#[derive(Clone, Debug, PartialEq, Eq)]
pub struct ExecuteError {
    pub exception: Exception,
}

impl ExecuteError {
    /// The name of this kind of message on the wire.
    pub fn message_type() -> (name: String)
        ensures
            name@ == "error"@,
    {
        "error".to_owned()
    }
}

/// Asks whether a piece of code is complete.
#[derive(Clone, Debug, PartialEq, Eq)]
pub struct IsCompleteRequest {
    pub code: String,
}

/// Asks for completions at a place in a piece of code.
#[derive(Clone, Debug, PartialEq, Eq)]
pub struct CompleteRequest {
    pub code: String,
    pub cursor_pos: u32,
}

/// The answer to the question whether code is complete.
#[derive(Clone, Copy, Debug, PartialEq, Eq, Structural)]
pub enum IsComplete {
    Complete,
    Incomplete,
    Invalid,
    Unknown,
}

/// Says whether a piece of code is complete.
#[derive(Clone, Debug, PartialEq, Eq)]
pub struct IsCompleteReply {
    pub status: IsComplete,
    /// The indentation to offer for the next line.
    pub indent: String,
}

/// The completions at a place in a piece of code.
#[derive(Clone, Debug, PartialEq, Eq)]
pub struct CompleteReply {
    pub matches: Vec<String>,
    pub status: Status,
    pub cursor_start: u32,
    pub cursor_end: u32,
}

/// The language a kernel runs.
#[derive(Clone, Debug, PartialEq, Eq)]
pub struct LanguageInfo {
    pub name: String,
    pub version: String,
    pub file_extension: String,
    pub mimetype: String,
    pub pygments_lexer: String,
    pub codemirror_mode: String,
    pub nbconvert_exporter: String,
}

/// The kernel's description of itself.
#[derive(Clone, Debug, PartialEq, Eq)]
pub struct KernelInfoReply {
    pub status: Status,
    pub banner: String,
    pub debugger: bool,
    pub protocol_version: String,
    pub help_links: Vec<String>,
    pub language_info: LanguageInfo,
}

/// The kernel's execution state, as published.
#[derive(Clone, Copy, Debug, PartialEq, Eq, Structural)]
pub struct KernelStatus {
    pub execution_state: ExecutionState,
}

/// The strings of a list, each by its view.
pub open spec fn string_views(v: Seq<String>) -> Seq<Seq<char>> {
    v.map_values(|s: String| s@)
}

} // verus!
