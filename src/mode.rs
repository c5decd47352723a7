//! Per-thread VM mode: whether the thread has ever entered the VM and
//! whether it is inside VM mode right now.
use vstd::prelude::*;

verus! {

/// The mode record of one thread, as plain values.
pub struct ModeState {
    pub bootstrapped: bool,
    pub active: bool,
}

impl ModeState {
    /// A thread is only ever active after it has been bootstrapped.
    pub open spec fn wf(self) -> bool {
        self.active ==> self.bootstrapped
    }
}

/// How a request for VM access is to be served.
#[derive(PartialEq, Eq, Structural, Debug, Clone, Copy)]
pub enum Entry {
    /// The thread is already inside VM mode: call the function directly.
    Reenter,
    /// Enter the VM through its entry primitive; when `serialize` holds,
    /// this is the thread's first entry and must hold the process-wide
    /// bootstrap lock.
    Enter { serialize: bool },
}

/// The plan for a request for VM access made in state `s`.
pub open spec fn entry_for(s: ModeState) -> Entry {
    if s.active {
        Entry::Reenter
    } else {
        Entry::Enter { serialize: !s.bootstrapped }
    }
}

/// The VM has started running the entry callback on this thread.
pub open spec fn entered(s: ModeState) -> ModeState {
    ModeState { bootstrapped: true, active: true }
}

/// The outermost entry primitive has returned control to the host.
pub open spec fn returned(s: ModeState) -> ModeState {
    ModeState { bootstrapped: s.bootstrapped, active: false }
}

/// The thread has stepped out of VM mode for a blocking operation.
pub open spec fn suspended(s: ModeState) -> ModeState {
    ModeState { bootstrapped: s.bootstrapped, active: false }
}

/// The thread has come back into VM mode after a blocking operation.
pub open spec fn resumed(s: ModeState) -> ModeState {
    ModeState { bootstrapped: s.bootstrapped, active: true }
}

/// The events that change a thread's mode record.
pub enum ModeEvent {
    Enter,
    Return,
    Suspend,
    Resume,
}

pub open spec fn apply(s: ModeState, e: ModeEvent) -> ModeState {
    match e {
        ModeEvent::Enter => entered(s),
        ModeEvent::Return => returned(s),
        ModeEvent::Suspend => suspended(s),
        ModeEvent::Resume => resumed(s),
    }
}

/// The state reached from `s` by the events `es`, in order.
pub open spec fn apply_all(s: ModeState, es: Seq<ModeEvent>) -> ModeState
    decreases es.len(),
{
    if es.len() == 0 {
        s
    } else {
        apply_all(apply(s, es[0]), es.drop_first())
    }
}

/// The mode record of one thread.
pub struct ThreadMode {
    bootstrapped: bool,
    active: bool,
}

impl View for ThreadMode {
    type V = ModeState;

    closed spec fn view(&self) -> ModeState {
        ModeState { bootstrapped: self.bootstrapped, active: self.active }
    }
}

impl Clone for ThreadMode {
    fn clone(&self) -> (r: Self)
        ensures
            r@ == self@,
    {
        proof {
            use_type_invariant(self);
        }
        ThreadMode { bootstrapped: self.bootstrapped, active: self.active }
    }
}

impl Copy for ThreadMode {}

impl ThreadMode {
    #[verifier::type_invariant]
    spec fn inv(self) -> bool {
        self.active ==> self.bootstrapped
    }

    /// The record of a thread that has never touched the VM.
    pub fn new() -> (r: ThreadMode)
        ensures
            r@ == (ModeState { bootstrapped: false, active: false }),
    {
        ThreadMode { bootstrapped: false, active: false }
    }

    pub fn is_active(&self) -> (r: bool)
        ensures
            r == self@.active,
            self@.wf(),
    {
        proof {
            use_type_invariant(self);
        }
        self.active
    }

    pub fn is_bootstrapped(&self) -> (r: bool)
        ensures
            r == self@.bootstrapped,
    {
        self.bootstrapped
    }

    /// Decides how a request for VM access is served on this thread.
    pub fn entry(&self) -> (r: Entry)
        ensures
            r == entry_for(self@),
            self@.wf(),
    {
        proof {
            use_type_invariant(self);
        }
        if self.active {
            Entry::Reenter
        } else {
            Entry::Enter { serialize: !self.bootstrapped }
        }
    }

    /// Records that the VM runs the entry callback on this thread.
    pub fn enter(&mut self)
        ensures
            final(self)@ == entered(old(self)@),
    {
        self.bootstrapped = true;
        self.active = true;
    }

    /// Records that the outermost entry returned control to the host,
    /// whether or not the callback ran to completion.
    pub fn leave(&mut self)
        ensures
            final(self)@ == returned(old(self)@),
    {
        self.active = false;
    }

    /// Records that the thread steps out of VM mode for a blocking operation.
    pub fn suspend(&mut self)
        requires
            old(self)@.active,
        ensures
            final(self)@ == suspended(old(self)@),
    {
        self.active = false;
    }

    /// Records that the thread is back in VM mode after a blocking operation.
    pub fn resume(&mut self)
        requires
            old(self)@.bootstrapped,
            !old(self)@.active,
        ensures
            final(self)@ == resumed(old(self)@),
    {
        self.active = true;
    }
}

/// A request made while the thread is inside VM mode is served directly,
/// without a second entry or bootstrap, and leaves the record as it was.
pub proof fn lemma_reentry(s: ModeState)
    requires
        s.active,
    ensures
        entry_for(s) == Entry::Reenter,
{
}

/// Stepping out for a blocking operation and back restores the record exactly.
pub proof fn lemma_blocking_restores(s: ModeState)
    requires
        s.wf(),
        s.active,
    ensures
        suspended(s).bootstrapped,
        !suspended(s).active,
        resumed(suspended(s)) == s,
{
}


/// Once a thread has been bootstrapped it stays so, whatever happens next,
/// and its later requests never take the process-wide bootstrap lock.
pub proof fn lemma_bootstrap_once(s: ModeState, es: Seq<ModeEvent>)
    requires
        s.bootstrapped,
    ensures
        apply_all(s, es).bootstrapped,
        entry_for(apply_all(s, es)) != (Entry::Enter { serialize: true }),
    decreases es.len(),
{
    if es.len() > 0 {
        lemma_bootstrap_once(apply(s, es[0]), es.drop_first());
    }
}

} // verus!
