use vstd::prelude::*;

verus! {

/// Tells the front end whether the interpreter is at work.
#[derive(Clone, Copy, Debug, PartialEq, Eq, Structural)]
pub struct BusyEvent {
    pub busy: bool,
}

/// A message that the interpreter wants shown to the user.
#[derive(Clone, Debug, PartialEq, Eq)]
pub struct ShowMessageEvent {
    pub message: String,
}

/// An event for the front end.
#[derive(Clone, Debug, PartialEq, Eq)]
pub enum PositronEvent {
    Busy(BusyEvent),
    ShowMessage(ShowMessageEvent),
}

/// An event with its message as a sequence of characters.
pub ghost enum PositronEventView {
    Busy(BusyEvent),
    ShowMessage(Seq<char>),
}

impl View for PositronEvent {
    type V = PositronEventView;

    open spec fn view(&self) -> PositronEventView {
        match self {
            PositronEvent::Busy(e) => PositronEventView::Busy(*e),
            PositronEvent::ShowMessage(e) => PositronEventView::ShowMessage(e.message@),
        }
    }
}

/// What the busy hook asks for, in the order given.
#[derive(Debug, PartialEq, Eq)]
pub enum BusyAction {
    /// Install the interrupt handler on the calling thread again: the
    /// interpreter may have moved or replaced it.
    InstallSignalHandlers,
    /// Deliver the event to the front end.
    SendEvent(PositronEvent),
}

/// An action of the busy hook by its view.
pub ghost enum BusyActionView {
    InstallSignalHandlers,
    SendEvent(PositronEventView),
}

impl View for BusyAction {
    type V = BusyActionView;

    open spec fn view(&self) -> BusyActionView {
        match self {
            BusyAction::InstallSignalHandlers => BusyActionView::InstallSignalHandlers,
            BusyAction::SendEvent(e) => BusyActionView::SendEvent(e@),
        }
    }
}

/// The actions of a list, each by its view.
pub open spec fn busy_action_views(actions: Seq<BusyAction>) -> Seq<BusyActionView> {
    actions.map_values(|a: BusyAction| a@)
}

/// The interpreter turns busy (`which` is not zero) or idle: the interrupt
/// handler is installed again first, then the front end is told.
pub fn r_busy(which: i32) -> (actions: Vec<BusyAction>)
    ensures
        busy_action_views(actions@) == seq![
            BusyActionView::InstallSignalHandlers,
            BusyActionView::SendEvent(PositronEventView::Busy(BusyEvent { busy: which != 0 })),
        ],
{
    let mut actions: Vec<BusyAction> = Vec::new();
    actions.push(BusyAction::InstallSignalHandlers);
    actions.push(BusyAction::SendEvent(PositronEvent::Busy(BusyEvent { busy: which != 0 })));
    assert(busy_action_views(actions@) =~= seq![
        BusyActionView::InstallSignalHandlers,
        BusyActionView::SendEvent(PositronEventView::Busy(BusyEvent { busy: which != 0 })),
    ]);
    actions
}

/// The event that carries a message of the interpreter to the front end.
pub fn r_show_message(message: String) -> (event: PositronEvent)
    ensures
        event@ == PositronEventView::ShowMessage(message@),
{
    PositronEvent::ShowMessage(ShowMessageEvent { message })
}

/// The interrupt signal arrived: the flag is set, and nothing else is done.
pub fn handle_interrupt(flag: &mut PendingInterrupt)
    ensures
        final(flag).pending,
{
    flag.pending = true;
}

/// The one flag through which an interrupt signal reaches the interpreter.
/// The signal handler sets it and does nothing else; the interpreter polls
/// it, and the console read resets it when input is delivered.
#[derive(Clone, Copy, Debug, PartialEq, Eq, Structural)]
pub struct PendingInterrupt {
    pub pending: bool,
}

impl PendingInterrupt {
    /// No interrupt is pending.
    pub fn new() -> (flag: PendingInterrupt)
        ensures
            !flag.pending,
    {
        PendingInterrupt { pending: false }
    }

    /// The console read delivered input: an interrupt raised before counts
    /// as handled. Says whether one was pending.
    pub fn clear(&mut self) -> (was_pending: bool)
        ensures
            was_pending == old(self).pending,
            !final(self).pending,
    {
        let was_pending = self.pending;
        self.pending = false;
        was_pending
    }
}

/// What the comm manager tells the rest of the kernel.
#[derive(Debug, PartialEq, Eq)]
pub enum CommShellEvent {
    /// A comm was opened, with this identity and this name.
    Added(String, String),
    /// The comm with this identity was removed.
    Removed(String),
}

} // verus!
