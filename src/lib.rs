//! Coordination layer between a host program and an embedded Guile VM.
//!
//! The library keeps the host-side bookkeeping that decides how the VM is
//! entered and left: the per-thread mode record, the cell that carries a
//! callback across the VM's single-pointer calling convention, and the
//! cleanup records of a scoped unwind guard.
use vstd::prelude::*;

pub mod dynwind;
pub mod mode;
pub mod transfer;

use crate::mode::{returned, resumed, ThreadMode};
use crate::transfer::Transfer;

verus! {

/// Proof that the calling thread is inside VM mode.
pub struct GuileVM {}

/// Completes a request served through the VM's entry primitive, once that
/// primitive has returned: the thread leaves VM mode, and the answer is the
/// callback's result, or `None` if a non-local exit cut the callback short.
pub fn finish_entry<F, O>(mode: &mut ThreadMode, cell: Transfer<F, O>) -> (r: Option<O>)
    ensures
        final(mode)@ == returned(old(mode)@),
        r == cell.output(),
{
    mode.leave();
    cell.into_output()
}

/// Completes a blocking operation, once the VM's primitive for leaving VM
/// mode has returned: the thread is back in VM mode and the operation's
/// result is handed back.
pub fn finish_blocking<F, O>(mode: &mut ThreadMode, cell: Transfer<F, O>) -> (r: O)
    requires
        old(mode)@.bootstrapped,
        !old(mode)@.active,
        cell.output() is Some,
    ensures
        final(mode)@ == resumed(old(mode)@),
        r == cell.output().unwrap(),
{
    mode.resume();
    cell.into_output().unwrap()
}

} // verus!
