use vstd::prelude::*;

verus! {

/// A yield in progress: the holder has stepped aside for one waiter.
#[derive(Clone, Copy, Debug, PartialEq, Eq, Structural)]
pub struct Yield {
    /// The thread that stepped aside and will take the right back.
    pub thread: u64,
    /// How deep it held the right, and will hold it again.
    pub depth: u64,
    /// Whether a waiter has had its turn already.
    pub served: bool,
}

/// Who may call into the interpreter. One thread at most holds the right; it
/// may take it again while it holds it, and gives it back as often as it
/// took it. Threads that found it taken are counted, as a sign for the
/// holder that someone waits; the count promises no order among them.
#[derive(Clone, Copy, Debug, PartialEq, Eq, Structural)]
pub struct ArbiterState {
    /// The thread that holds the right.
    pub holder: Option<u64>,
    /// How often the holder has taken it without giving it back.
    pub depth: u64,
    /// How many threads wait for it.
    pub waiter_count: u64,
    /// The yield in progress, if there is one.
    pub yielding: Option<Yield>,
}

/// The answer to an attempt to take the right.
#[derive(Clone, Copy, Debug, PartialEq, Eq, Structural)]
pub enum Acquire {
    /// The caller holds the right now.
    Granted,
    /// The right is not to be had now; the caller is counted among the
    /// waiters.
    MustWait,
}

/// The state in which the right is free and no one waits.
pub open spec fn spec_new() -> ArbiterState {
    ArbiterState { holder: None, depth: 0, waiter_count: 0, yielding: None }
}

/// An attempt to take the right. The holder takes it once more. Anyone gets
/// it where it is free and no yield is in progress. Otherwise the caller is
/// counted as waiting: during a yield the right is kept for a waiter's one
/// turn and for the thread that stepped aside.
pub open spec fn spec_acquire(s: ArbiterState, thread: u64) -> (ArbiterState, Acquire) {
    if s.holder == Some(thread) {
        (ArbiterState { depth: (s.depth + 1) as u64, ..s }, Acquire::Granted)
    } else if s.holder is None && s.yielding is None {
        (ArbiterState { holder: Some(thread), depth: 1, ..s }, Acquire::Granted)
    } else {
        (ArbiterState { waiter_count: (s.waiter_count + 1) as u64, ..s }, Acquire::MustWait)
    }
}

/// Whether the free right may go to `thread` as a waiter: someone waits,
/// and where a yield is in progress no waiter has had its turn yet and
/// `thread` is not the one that stepped aside, which comes back by ending
/// the yield.
pub open spec fn spec_may_grant(s: ArbiterState, thread: u64) -> bool {
    &&& s.holder is None
    &&& s.waiter_count > 0
    &&& match s.yielding {
        Some(y) => !y.served && y.thread != thread,
        None => true,
    }
}

/// A waiting thread is handed the right. During a yield this is the one turn
/// that the yield allows.
pub open spec fn spec_grant(s: ArbiterState, thread: u64) -> (ArbiterState, bool) {
    if spec_may_grant(s, thread) {
        (
            ArbiterState {
                holder: Some(thread),
                depth: 1,
                waiter_count: (s.waiter_count - 1) as u64,
                yielding: match s.yielding {
                    Some(y) => Some(Yield { served: true, ..y }),
                    None => None,
                },
            },
            true,
        )
    } else {
        (s, false)
    }
}

/// The holder gives the right back once. Any other thread is refused.
pub open spec fn spec_release(s: ArbiterState, thread: u64) -> (ArbiterState, bool) {
    if s.holder == Some(thread) && s.depth > 0 {
        if s.depth == 1 {
            (ArbiterState { holder: None, depth: 0, ..s }, true)
        } else {
            (ArbiterState { depth: (s.depth - 1) as u64, ..s }, true)
        }
    } else {
        (s, false)
    }
}

/// The holder should step aside: it is the caller, someone waits, and it is
/// not in the middle of another thread's yield.
pub open spec fn spec_should_yield(s: ArbiterState, thread: u64) -> bool {
    s.holder == Some(thread) && s.waiter_count > 0 && s.yielding is None
}

/// The first half of a yield: with someone waiting, the holder lets go of
/// the right altogether. With no one waiting nothing happens.
pub open spec fn spec_begin_yield(s: ArbiterState, thread: u64) -> (ArbiterState, bool) {
    if spec_should_yield(s, thread) {
        (
            ArbiterState {
                holder: None,
                depth: 0,
                yielding: Some(Yield { thread, depth: s.depth, served: false }),
                ..s
            },
            true,
        )
    } else {
        (s, false)
    }
}

/// The second half of a yield: once the right is free again it goes back to
/// the thread that stepped aside, as deep as it was held.
pub open spec fn spec_end_yield(s: ArbiterState) -> (ArbiterState, bool) {
    match s.yielding {
        Some(y) => if s.holder is None {
            (ArbiterState { holder: Some(y.thread), depth: y.depth, yielding: None, ..s }, true)
        } else {
            (s, false)
        },
        None => (s, false),
    }
}

impl ArbiterState {
    /// The right is held exactly when it was taken more often than given
    /// back. During a yield it is free or held by the one waiter that was
    /// served, and the thread that stepped aside has a hold to take back.
    pub open spec fn wf(self) -> bool {
        &&& (self.holder is None) == (self.depth == 0)
        &&& match self.yielding {
            Some(y) => {
                &&& y.depth > 0
                &&& self.holder != Some(y.thread)
                &&& self.holder is Some ==> y.served
            },
            None => true,
        }
    }

    /// The right is free and no one waits.
    pub fn new() -> (s: ArbiterState)
        ensures
            s == spec_new(),
            s.wf(),
    {
        ArbiterState { holder: None, depth: 0, waiter_count: 0, yielding: None }
    }

    /// An attempt of `thread` to take the right. The two counters cannot
    /// pass `u64::MAX`.
    pub fn acquire(&mut self, thread: u64) -> (res: Acquire)
        requires
            old(self).wf(),
            old(self).depth < u64::MAX,
            old(self).waiter_count < u64::MAX,
        ensures
            (*final(self), res) == spec_acquire(*old(self), thread),
            final(self).wf(),
    {
        match self.holder {
            Some(h) => {
                if h == thread {
                    self.depth = self.depth + 1;
                    Acquire::Granted
                } else {
                    self.waiter_count = self.waiter_count + 1;
                    Acquire::MustWait
                }
            },
            None => {
                if self.yielding.is_none() {
                    self.holder = Some(thread);
                    self.depth = 1;
                    Acquire::Granted
                } else {
                    self.waiter_count = self.waiter_count + 1;
                    Acquire::MustWait
                }
            },
        }
    }

    /// Hands the free right to a thread that waited for it. Says whether it
    /// did; where it may not, nothing changes.
    pub fn grant(&mut self, thread: u64) -> (granted: bool)
        requires
            old(self).wf(),
        ensures
            (*final(self), granted) == spec_grant(*old(self), thread),
            final(self).wf(),
    {
        if self.holder.is_some() || self.waiter_count == 0 {
            return false;
        }
        match self.yielding {
            Some(y) => {
                if y.served || y.thread == thread {
                    return false;
                }
                self.yielding = Some(Yield { thread: y.thread, depth: y.depth, served: true });
            },
            None => {},
        }
        self.holder = Some(thread);
        self.depth = 1;
        self.waiter_count = self.waiter_count - 1;
        true
    }

    /// `thread` gives the right back once. Says whether it held it; for any
    /// other thread nothing changes.
    pub fn release(&mut self, thread: u64) -> (released: bool)
        requires
            old(self).wf(),
        ensures
            (*final(self), released) == spec_release(*old(self), thread),
            final(self).wf(),
    {
        match self.holder {
            Some(h) => {
                if h == thread {
                    self.depth = self.depth - 1;
                    if self.depth == 0 {
                        self.holder = None;
                    }
                    true
                } else {
                    false
                }
            },
            None => false,
        }
    }

    /// Whether `thread` holds the right while someone waits for it.
    pub fn should_yield(&self, thread: u64) -> (res: bool)
        ensures
            res == spec_should_yield(*self, thread),
    {
        match self.holder {
            Some(h) => h == thread && self.waiter_count > 0 && self.yielding.is_none(),
            None => false,
        }
    }

    /// Ends a yield: the thread that stepped aside takes the right back.
    /// Says whether it did; while the served waiter holds the right, and
    /// where no yield is in progress, nothing changes.
    pub fn end_yield(&mut self) -> (resumed: bool)
        requires
            old(self).wf(),
        ensures
            (*final(self), resumed) == spec_end_yield(*old(self)),
            final(self).wf(),
    {
        match self.yielding {
            Some(y) => {
                if self.holder.is_none() {
                    self.holder = Some(y.thread);
                    self.depth = y.depth;
                    self.yielding = None;
                    true
                } else {
                    false
                }
            },
            None => false,
        }
    }
}

/// The yield point of the holder. With someone waiting it lets go of the
/// right, for one waiter to have a turn, and says that it did; with no one
/// waiting it does nothing.
pub fn r_polled_events(arbiter: &mut ArbiterState, thread: u64) -> (yielded: bool)
    requires
        old(arbiter).wf(),
    ensures
        (*final(arbiter), yielded) == spec_begin_yield(*old(arbiter), thread),
        final(arbiter).wf(),
{
    if arbiter.should_yield(thread) {
        let depth: u64 = arbiter.depth;
        arbiter.holder = None;
        arbiter.depth = 0;
        arbiter.yielding = Some(Yield { thread, depth, served: false });
        true
    } else {
        false
    }
}

/// With no one waiting, a yield point changes nothing.
pub proof fn lemma_yield_without_waiters_is_idle(s: ArbiterState, thread: u64)
    requires
        s.waiter_count == 0,
    ensures
        spec_begin_yield(s, thread) == (s, false),
{
}

/// A yield with someone waiting lets exactly one waiter in. The right goes
/// to that waiter once. While it holds the right, no other waiter is served
/// and the thread that stepped aside cannot come back. When it has given the
/// right back, still no other waiter is served, and a newcomer must wait:
/// only the thread that stepped aside gets the right, as deep as it held it
/// before, with one waiter fewer.
pub proof fn lemma_yield_cedes_exactly_once(s: ArbiterState, thread: u64, waiter: u64, other: u64)
    requires
        s.wf(),
        spec_should_yield(s, thread),
        waiter != thread,
    ensures
        ({
            let (released, yielded) = spec_begin_yield(s, thread);
            let (taken, granted) = spec_grant(released, waiter);
            let (back, freed) = spec_release(taken, waiter);
            let (resumed, ok) = spec_end_yield(back);
            &&& yielded
            &&& released.holder is None
            &&& granted
            &&& taken.holder == Some(waiter)
            &&& spec_grant(taken, other) == (taken, false)
            &&& spec_end_yield(taken) == (taken, false)
            &&& freed
            &&& back.holder is None
            &&& spec_grant(back, other) == (back, false)
            &&& spec_acquire(back, other).1 == Acquire::MustWait
            &&& ok
            &&& resumed == (ArbiterState { waiter_count: (s.waiter_count - 1) as u64, ..s })
        }),
{
}

/// Where the waiter that was counted never comes, the thread that stepped
/// aside takes the right back as it left it.
pub proof fn lemma_yield_without_a_taker_comes_back(s: ArbiterState, thread: u64)
    requires
        s.wf(),
        spec_should_yield(s, thread),
    ensures
        spec_end_yield(spec_begin_yield(s, thread).0) == (s, true),
{
}

/// Only the holder can give the right back, and a thread that does not hold
/// it cannot take it while it is held.
pub proof fn lemma_single_owner(s: ArbiterState, thread: u64)
    requires
        s.wf(),
        s.holder is Some,
        s.holder != Some(thread),
    ensures
        spec_acquire(s, thread).1 == Acquire::MustWait,
        spec_acquire(s, thread).0.holder == s.holder,
        spec_release(s, thread) == (s, false),
        spec_begin_yield(s, thread) == (s, false),
        spec_grant(s, thread) == (s, false),
{
}

} // verus!
