//! The cell that carries a callback across the VM's calling convention,
//! which hands the callback nothing but one data pointer.
use vstd::prelude::*;
use crate::GuileVM;

verus! {

/// A callback waiting to be run, and the slot for its result.
///
/// The callback is consumed at most once and the slot is filled at most
/// once. A cell whose callback was cut short by a non-local exit keeps an
/// empty slot.
pub struct Transfer<F, O> {
    callback: Option<F>,
    output: Option<O>,
}

impl<F, O> Transfer<F, O> {
    /// The callback that has not run yet, if any.
    pub closed spec fn callback(&self) -> Option<F> {
        self.callback
    }

    /// The result of the callback, once it has returned.
    pub closed spec fn output(&self) -> Option<O> {
        self.output
    }

    /// A cell holding `f`, with an empty result slot.
    pub fn new(f: F) -> (r: Self)
        ensures
            r.callback() == Some(f),
            r.output() == None::<O>,
    {
        Transfer { callback: Some(f), output: None }
    }

    /// Whether the callback has returned its result.
    pub fn is_done(&self) -> (r: bool)
        ensures
            r == self.output() is Some,
    {
        self.output.is_some()
    }

    /// The result of the callback, or `None` if it never returned.
    pub fn into_output(self) -> (r: Option<O>)
        ensures
            r == self.output(),
    {
        self.output
    }

    /// Runs the waiting callback inside VM mode and keeps its result.
    /// A cell whose callback was already taken is left as it is.
    pub fn run_in_vm(&mut self)
        where
            F: FnOnce(&GuileVM) -> O,
        requires
            old(self).callback() matches Some(f) ==> f.requires((&GuileVM {},)),
        ensures
            ran_in_vm(*old(self), *final(self)),
    {
        match self.callback.take() {
            Some(f) => {
                let vm = GuileVM {};
                self.output = Some(f(&vm));
            },
            None => {},
        }
    }

    /// Runs the waiting callback outside VM mode and keeps its result.
    /// A cell whose callback was already taken is left as it is.
    pub fn run_detached(&mut self)
        where
            F: FnOnce() -> O,
        requires
            old(self).callback() matches Some(f) ==> f.requires(()),
        ensures
            match old(self).callback() {
                Some(f) => {
                    &&& final(self).callback() is None
                    &&& final(self).output() is Some
                    &&& f.ensures((), final(self).output().unwrap())
                },
                None => final(self).callback() == old(self).callback() && final(self).output()
                    == old(self).output(),
            },
    {
        match self.callback.take() {
            Some(f) => {
                self.output = Some(f());
            },
            None => {},
        }
    }
}

/// `after` is the cell `before` becomes when the callback it holds runs
/// inside VM mode and returns.
pub open spec fn ran_in_vm<F: FnOnce(&GuileVM) -> O, O>(
    before: Transfer<F, O>,
    after: Transfer<F, O>,
) -> bool {
    match before.callback() {
        Some(f) => {
            &&& after.callback() is None
            &&& after.output() is Some
            &&& f.ensures((&GuileVM {},), after.output().unwrap())
        },
        None => after.callback() == before.callback() && after.output() == before.output(),
    }
}

/// A request for VM access answers `Some(v)` when its callback returned `v`,
/// and `None` as long as the callback has not returned: a fresh cell, or one
/// whose callback was cut short by a non-local exit, has an empty slot.
pub proof fn lemma_abort_signaling<F: FnOnce(&GuileVM) -> O, O>(
    f: F,
    cell: Transfer<F, O>,
    after: Transfer<F, O>,
)
    requires
        cell.callback() == Some(f),
        cell.output() == None::<O>,
    ensures
        ran_in_vm(cell, after) ==> (after.output() matches Some(v) && f.ensures(
            (&GuileVM {},),
            v,
        )),
        ran_in_vm(cell, after) ==> after.callback() is None,
{
}

} // verus!
