use crate::prompt::prompt_info;
use crate::prompt::spec_prompt_info;
use crate::prompt::PromptInfo;
use crate::prompt::PromptView;
use crate::wire::spec_stream_of;
use crate::wire::stream_of;
use crate::wire::StreamOutput;
use vstd::prelude::*;
use vstd::string::*;
use vstd::utf8::*;

verus! {

/// How long the console read waits for input before it looks after the
/// interpreter's pending work, in milliseconds.
pub const POLL_INTERVAL_MILLIS: u64 = 200;

/// Why a line of console input could not be handed to the interpreter.
#[derive(Clone, Copy, Debug, PartialEq, Eq, Structural)]
pub enum ConsoleInputError {
    /// The line, with its newline and terminator, does not fit the buffer.
    TooLarge,
    /// The line holds a zero byte, which would cut it short in the buffer.
    InteriorNul,
}

/// The bytes handed to the interpreter for a line: its UTF-8 encoding, a
/// newline and the terminating zero.
pub open spec fn spec_console_line(input: Seq<char>) -> Seq<u8> {
    encode_utf8(input) + seq![10u8, 0u8]
}

/// The framed line fits a buffer of `buflen` bytes.
pub open spec fn spec_line_fits(buflen: i32, input: Seq<char>) -> bool {
    encode_utf8(input).len() + 2 <= buflen
}

/// What delivering `input` into a buffer of `buflen` bytes comes to.
pub open spec fn spec_on_console_input(buflen: i32, input: Seq<char>) -> Result<
    Seq<u8>,
    ConsoleInputError,
> {
    if !spec_line_fits(buflen, input) {
        Err(ConsoleInputError::TooLarge)
    } else if encode_utf8(input).contains(0u8) {
        Err(ConsoleInputError::InteriorNul)
    } else {
        Ok(spec_console_line(input))
    }
}

/// A framing result with the bytes taken as a sequence.
pub open spec fn framed(res: Result<Vec<u8>, ConsoleInputError>) -> Result<
    Seq<u8>,
    ConsoleInputError,
> {
    match res {
        Ok(bytes) => Ok(bytes@),
        Err(e) => Err(e),
    }
}

/// Frames a line of input for the interpreter's buffer. The length is checked
/// before anything is copied: a line that does not fit is refused, never cut.
pub fn on_console_input(buflen: i32, input: String) -> (res: Result<Vec<u8>, ConsoleInputError>)
    ensures
        framed(res) == spec_on_console_input(buflen, input@),
{
    let mut bytes: Vec<u8> = input.as_str().as_bytes_vec();
    if buflen < 2 {
        return Err(ConsoleInputError::TooLarge);
    }
    let room: usize = (buflen - 2) as usize;
    if bytes.len() > room {
        return Err(ConsoleInputError::TooLarge);
    }
    let ghost encoded: Seq<u8> = bytes@;
    let mut i: usize = 0;
    while i < bytes.len()
        invariant
            i <= bytes.len(),
            bytes@ == encoded,
            encoded == encode_utf8(input@),
            spec_line_fits(buflen, input@),
            forall|j: int| 0 <= j < i ==> encoded[j] != 0u8,
        decreases bytes.len() - i,
    {
        if bytes[i] == 0u8 {
            assert(encoded[i as int] == 0u8);
            return Err(ConsoleInputError::InteriorNul);
        }
        i += 1;
    }
    bytes.push(10u8);
    bytes.push(0u8);
    assert(bytes@ =~= spec_console_line(input@));
    Ok(bytes)
}

/// `needle` stands at the start of `hay`.
pub fn starts_with_bytes(hay: &[u8], needle: &[u8]) -> (res: bool)
    ensures
        res == needle@.is_prefix_of(hay@),
{
    if needle.len() > hay.len() {
        return false;
    }
    let mut i: usize = 0;
    while i < needle.len()
        invariant
            i <= needle.len(),
            needle.len() <= hay.len(),
            forall|j: int| 0 <= j < i ==> needle@[j] == hay@[j],
        decreases needle.len() - i,
    {
        if needle[i] != hay[i] {
            assert(hay@.subrange(0, needle@.len() as int)[i as int] == hay@[i as int]);
            return false;
        }
        i += 1;
    }
    assert(needle@ =~= hay@.subrange(0, needle@.len() as int));
    true
}

/// The prompt with which the interpreter asks, on its way out, whether to
/// save the workspace.
pub open spec fn spec_is_save_prompt(prompt: Seq<char>) -> bool {
    encode_utf8("Save workspace"@).is_prefix_of(encode_utf8(prompt))
}

/// Whether the prompt is the question about the workspace.
pub fn is_save_prompt(prompt: &str) -> (res: bool)
    ensures
        res == spec_is_save_prompt(prompt@),
{
    starts_with_bytes(prompt.as_bytes(), "Save workspace".as_bytes())
}

/// Something the console read asks its surroundings to do, in the order
/// given.
#[derive(Debug, PartialEq, Eq)]
pub enum ConsoleAction {
    /// Send the classified prompt to the execution side.
    PublishPrompt(PromptInfo),
    /// Give up the right to call into the interpreter.
    ReleaseArbiter,
    /// Wait for console input, for `POLL_INTERVAL_MILLIS` at most.
    WaitForInput,
    /// Take the right to call into the interpreter.
    AcquireArbiter,
    /// Reset the pending-interrupt flag: an interrupt raised while the input
    /// was being typed counts as handled.
    ClearInterrupt,
    /// Run one pass over the interpreter's pending work.
    PumpEvents,
    /// Copy these bytes to the start of the interpreter's buffer.
    CopyToBuffer(Vec<u8>),
    /// Report loudly that the line was refused; nothing is copied.
    ReportRefusal(ConsoleInputError),
    /// Return to the interpreter with this value: 1 says that the buffer
    /// holds a line, 0 that the input has ended.
    Return(i32),
}

/// A console action with its strings and bytes as sequences.
pub ghost enum ConsoleActionView {
    PublishPrompt(PromptView),
    ReleaseArbiter,
    WaitForInput,
    AcquireArbiter,
    ClearInterrupt,
    PumpEvents,
    CopyToBuffer(Seq<u8>),
    ReportRefusal(ConsoleInputError),
    Return(i32),
}

impl View for ConsoleAction {
    type V = ConsoleActionView;

    open spec fn view(&self) -> ConsoleActionView {
        match self {
            ConsoleAction::PublishPrompt(info) => ConsoleActionView::PublishPrompt(info@),
            ConsoleAction::ReleaseArbiter => ConsoleActionView::ReleaseArbiter,
            ConsoleAction::WaitForInput => ConsoleActionView::WaitForInput,
            ConsoleAction::AcquireArbiter => ConsoleActionView::AcquireArbiter,
            ConsoleAction::ClearInterrupt => ConsoleActionView::ClearInterrupt,
            ConsoleAction::PumpEvents => ConsoleActionView::PumpEvents,
            ConsoleAction::CopyToBuffer(bytes) => ConsoleActionView::CopyToBuffer(bytes@),
            ConsoleAction::ReportRefusal(e) => ConsoleActionView::ReportRefusal(*e),
            ConsoleAction::Return(code) => ConsoleActionView::Return(*code),
        }
    }
}

/// The actions of a list, each by its view.
pub open spec fn console_action_views(actions: Seq<ConsoleAction>) -> Seq<ConsoleActionView> {
    actions.map_values(|a: ConsoleAction| a@)
}

/// The hand-over of a line, with the arbiter held. A line that can be
/// framed for the buffer is copied, and the interpreter is told that the
/// buffer holds a line. A line that cannot is refused: the refusal is
/// reported, nothing is copied, the interpreter is told nothing, and the
/// read goes on waiting for input that can be delivered.
pub open spec fn spec_deliver(buflen: i32, line: Seq<char>) -> Seq<ConsoleActionView> {
    match spec_on_console_input(buflen, line) {
        Ok(bytes) => seq![ConsoleActionView::CopyToBuffer(bytes), ConsoleActionView::Return(1)],
        Err(e) => seq![
            ConsoleActionView::ReportRefusal(e),
            ConsoleActionView::ReleaseArbiter,
            ConsoleActionView::WaitForInput,
        ],
    }
}

/// How a console read starts. The interpreter calls with the arbiter held.
/// The save-workspace question is answered with `n` at once. Any other
/// prompt is classified and published, and the arbiter is released before
/// the wait begins.
pub open spec fn spec_begin_read_console(
    prompt: Seq<char>,
    continue_prompt: Seq<char>,
    default_prompt: Seq<char>,
    buflen: i32,
) -> Seq<ConsoleActionView> {
    if spec_is_save_prompt(prompt) {
        spec_deliver(buflen, "n"@)
    } else {
        seq![
            ConsoleActionView::PublishPrompt(
                spec_prompt_info(prompt, continue_prompt, default_prompt),
            ),
            ConsoleActionView::ReleaseArbiter,
            ConsoleActionView::WaitForInput,
        ]
    }
}

fn deliver(actions: &mut Vec<ConsoleAction>, buflen: i32, line: String)
    ensures
        console_action_views(final(actions)@) == console_action_views(old(actions)@) + spec_deliver(
            buflen,
            line@,
        ),
{
    match on_console_input(buflen, line) {
        Ok(bytes) => {
            actions.push(ConsoleAction::CopyToBuffer(bytes));
            actions.push(ConsoleAction::Return(1));
        },
        Err(e) => {
            actions.push(ConsoleAction::ReportRefusal(e));
            actions.push(ConsoleAction::ReleaseArbiter);
            actions.push(ConsoleAction::WaitForInput);
        },
    }
    assert(console_action_views(final(actions)@) =~= console_action_views(old(actions)@)
        + spec_deliver(buflen, line@));
}

/// The first half of a console read, up to the first wait.
pub fn begin_read_console(
    prompt: String,
    continue_prompt: &String,
    default_prompt: &String,
    buflen: i32,
) -> (actions: Vec<ConsoleAction>)
    ensures
        console_action_views(actions@) == spec_begin_read_console(
            prompt@,
            continue_prompt@,
            default_prompt@,
            buflen,
        ),
{
    let mut actions: Vec<ConsoleAction> = Vec::new();
    if is_save_prompt(prompt.as_str()) {
        deliver(&mut actions, buflen, "n".to_owned());
    } else {
        actions.push(
            ConsoleAction::PublishPrompt(prompt_info(prompt, continue_prompt, default_prompt)),
        );
        actions.push(ConsoleAction::ReleaseArbiter);
        actions.push(ConsoleAction::WaitForInput);
    }
    assert(console_action_views(actions@) =~= spec_begin_read_console(
        prompt@,
        continue_prompt@,
        default_prompt@,
        buflen,
    ));
    actions
}

/// What the wait on the input channel came back with.
#[derive(Debug, PartialEq, Eq)]
pub enum ConsoleEvent {
    /// A line of input, or the sign that there is no more.
    Input(Option<String>),
    /// Nothing arrived within the polling interval.
    Timeout,
    /// The sending side is gone.
    Disconnected,
}

/// A console event with its line as a sequence of characters.
pub ghost enum ConsoleEventView {
    Input(Option<Seq<char>>),
    Timeout,
    Disconnected,
}

impl View for ConsoleEvent {
    type V = ConsoleEventView;

    open spec fn view(&self) -> ConsoleEventView {
        match self {
            ConsoleEvent::Input(Some(line)) => ConsoleEventView::Input(Some(line@)),
            ConsoleEvent::Input(None) => ConsoleEventView::Input(None),
            ConsoleEvent::Timeout => ConsoleEventView::Timeout,
            ConsoleEvent::Disconnected => ConsoleEventView::Disconnected,
        }
    }
}

/// How a console read goes on when its wait ends. The arbiter is taken back
/// first, whatever came. A line resets the pending interrupt, is followed by
/// one pass over the pending work, and is handed over; where it is refused,
/// the arbiter is released and the wait goes on. The sign that there is no
/// more input resets the interrupt and gives one pass too, and ends the
/// input. A timeout gives one
/// pass over the pending work, then the arbiter is released and the wait
/// goes on. A lost channel ends the input.
pub open spec fn spec_read_console(event: ConsoleEventView, buflen: i32) -> Seq<
    ConsoleActionView,
> {
    match event {
        ConsoleEventView::Input(Some(line)) => seq![
            ConsoleActionView::AcquireArbiter,
            ConsoleActionView::ClearInterrupt,
            ConsoleActionView::PumpEvents,
        ] + spec_deliver(buflen, line),
        ConsoleEventView::Input(None) => seq![
            ConsoleActionView::AcquireArbiter,
            ConsoleActionView::ClearInterrupt,
            ConsoleActionView::PumpEvents,
            ConsoleActionView::Return(0),
        ],
        ConsoleEventView::Timeout => seq![
            ConsoleActionView::AcquireArbiter,
            ConsoleActionView::PumpEvents,
            ConsoleActionView::ReleaseArbiter,
            ConsoleActionView::WaitForInput,
        ],
        ConsoleEventView::Disconnected => seq![
            ConsoleActionView::AcquireArbiter,
            ConsoleActionView::Return(0),
        ],
    }
}

/// One turn of the wait for console input.
pub fn r_read_console(event: ConsoleEvent, buflen: i32) -> (actions: Vec<ConsoleAction>)
    ensures
        console_action_views(actions@) == spec_read_console(event@, buflen),
{
    let mut actions: Vec<ConsoleAction> = Vec::new();
    actions.push(ConsoleAction::AcquireArbiter);
    match event {
        ConsoleEvent::Input(Some(line)) => {
            actions.push(ConsoleAction::ClearInterrupt);
            actions.push(ConsoleAction::PumpEvents);
            deliver(&mut actions, buflen, line);
        },
        ConsoleEvent::Input(None) => {
            actions.push(ConsoleAction::ClearInterrupt);
            actions.push(ConsoleAction::PumpEvents);
            actions.push(ConsoleAction::Return(0));
        },
        ConsoleEvent::Timeout => {
            actions.push(ConsoleAction::PumpEvents);
            actions.push(ConsoleAction::ReleaseArbiter);
            actions.push(ConsoleAction::WaitForInput);
        },
        ConsoleEvent::Disconnected => {
            actions.push(ConsoleAction::Return(0));
        },
    }
    assert(console_action_views(actions@) =~= spec_read_console(event@, buflen));
    actions
}

/// The console read never waits with the arbiter held, and never holds it
/// over more than one pass of pending work: in what follows an event, every
/// wait comes directly after a release, the arbiter is taken first, and
/// there is one pass at most.
pub proof fn lemma_wait_only_after_release(event: ConsoleEventView, buflen: i32, i: int)
    requires
        0 <= i < spec_read_console(event, buflen).len(),
    ensures
        spec_read_console(event, buflen)[0] == ConsoleActionView::AcquireArbiter,
        spec_read_console(event, buflen)[i] == ConsoleActionView::WaitForInput ==> i > 0
            && spec_read_console(event, buflen)[i - 1] == ConsoleActionView::ReleaseArbiter,
        spec_read_console(event, buflen)[i] == ConsoleActionView::PumpEvents ==> forall|j: int|
            0 <= j < spec_read_console(event, buflen).len() && j != i
                ==> spec_read_console(event, buflen)[j] != ConsoleActionView::PumpEvents,
        spec_read_console(event, buflen).last() == ConsoleActionView::WaitForInput
            || spec_read_console(event, buflen).last() is Return,
{
}

/// The interpreter is told that its buffer holds a line only directly after
/// a line was copied there, at the start of a read as well as after a wait.
/// After a refusal it is told nothing.
pub proof fn lemma_line_reported_only_after_copy(
    prompt: Seq<char>,
    continue_prompt: Seq<char>,
    default_prompt: Seq<char>,
    event: ConsoleEventView,
    buflen: i32,
    i: int,
)
    ensures
        ({
            let begun = spec_begin_read_console(prompt, continue_prompt, default_prompt, buflen);
            0 <= i < begun.len() && begun[i] == ConsoleActionView::Return(1) ==> i > 0 && begun[i
                - 1] is CopyToBuffer
        }),
        ({
            let gone_on = spec_read_console(event, buflen);
            0 <= i < gone_on.len() && gone_on[i] == ConsoleActionView::Return(1) ==> i > 0
                && gone_on[i - 1] is CopyToBuffer
        }),
        ({
            let gone_on = spec_read_console(event, buflen);
            0 <= i < gone_on.len() && gone_on[i] is ReportRefusal ==> !(gone_on.last() is Return)
                && forall|j: int|
                0 <= j < gone_on.len() ==> !(#[trigger] gone_on[j] is CopyToBuffer)
        }),
{
}

/// A pending interrupt is reset exactly when input arrives: a line or the
/// sign that there is no more. A timeout and a lost channel leave it.
pub proof fn lemma_interrupt_cleared_on_input(event: ConsoleEventView, buflen: i32)
    ensures
        spec_read_console(event, buflen).contains(ConsoleActionView::ClearInterrupt)
            == (event is Input),
{
    let actions = spec_read_console(event, buflen);
    if event is Input {
        assert(actions[1] == ConsoleActionView::ClearInterrupt);
    }
}

/// Nothing is copied to the interpreter's buffer that does not fit it, is
/// not terminated, or holds a zero byte before its end.
pub proof fn lemma_copy_fits_the_buffer(event: ConsoleEventView, buflen: i32, i: int)
    requires
        0 <= i < spec_read_console(event, buflen).len(),
        spec_read_console(event, buflen)[i] is CopyToBuffer,
    ensures
        ({
            let bytes = spec_read_console(event, buflen)[i]->CopyToBuffer_0;
            &&& 2 <= bytes.len() <= buflen
            &&& bytes.last() == 0u8
            &&& bytes[bytes.len() - 2] == 10u8
            &&& forall|j: int| 0 <= j < bytes.len() - 1 ==> bytes[j] != 0u8
        }),
{
    let bytes = spec_read_console(event, buflen)[i]->CopyToBuffer_0;
    let line = event->Input_0.unwrap();
    let encoded = encode_utf8(line);
    assert(bytes == encoded + seq![10u8, 0u8]);
    assert forall|j: int| 0 <= j < bytes.len() - 1 implies bytes[j] != 0u8 by {
        if j < encoded.len() {
            assert(bytes[j] == encoded[j]);
            assert(!encoded.contains(0u8));
        }
    }
}

/// Output written by the interpreter, tagged with the stream that its
/// discriminant names.
pub fn r_write_console(content: String, otype: i32) -> (out: StreamOutput)
    ensures
        out.stream == spec_stream_of(otype),
        out.text@ == content@,
{
    StreamOutput { stream: stream_of(otype), text: content }
}

} // verus!
