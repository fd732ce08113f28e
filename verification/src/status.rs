//! The states of a machine that calls look at.

use vstd::prelude::*;

verus! {

/// What a machine is doing.
#[derive(Clone, Copy, Debug, PartialEq, Eq, Structural)]
pub enum JSStatus {
    /// A synchronous task is about to block the machine.
    WaitBlock,
    /// One task runs.
    SingleTask,
    /// A synchronous task blocks the machine, and other tasks may act on it.
    MultiTask,
    /// All tasks are done, and an asynchronous callback is awaited.
    WaitCallBack,
    /// Anything else.
    Other,
}

/// A change of a machine's status that takes place only where the status is `from`.
#[derive(Clone, Copy, Debug, PartialEq, Eq, Structural)]
pub struct StatusSwitch {
    /// The status that has to stand.
    pub from: JSStatus,
    /// The status that then stands.
    pub to: JSStatus,
}

} // verus!
