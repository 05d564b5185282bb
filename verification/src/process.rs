//! The slot that owns the spawned server process, and the state shared by
//! everything that outlives startup.

use crate::readiness::{offer, readiness_view, ReadinessBroadcaster, ReadinessView, ServerReadyData};
use vstd::prelude::*;

verus! {

/// Emptying a slot for termination: the slot afterwards, and the process
/// handed out to be terminated.
pub open spec fn kill<C>(slot: Option<C>) -> (Option<C>, Option<C>) {
    (None, slot)
}

/// A slot that owns at most one handle of a live child process.
///
/// The type `C` is the caller's handle of a process.  The slot never looks
/// inside it: it hands the handle back to the caller when the process is to
/// be terminated.
pub struct ProcessHandle<C> {
    child: Option<C>,
}

impl<C> View for ProcessHandle<C> {
    type V = Option<C>;

    closed spec fn view(&self) -> Option<C> {
        self.child
    }
}

impl<C> ProcessHandle<C> {
    /// A slot that holds `child`.
    pub fn new(child: Option<C>) -> (slot: ProcessHandle<C>)
        ensures
            slot@ == child,
    {
        ProcessHandle { child }
    }

    /// Whether the slot holds a process.
    pub fn is_live(&self) -> (live: bool)
        ensures
            live == (self@ is Some),
    {
        self.child.is_some()
    }

    /// Stores `child` in the slot.  A handle that was there before is
    /// dropped without being terminated.
    pub fn replace(&mut self, child: Option<C>)
        ensures
            final(self)@ == child,
    {
        self.child = child;
    }

    /// Empties the slot and returns the process that was in it, which the
    /// caller is to terminate.  On an empty slot this does nothing.
    pub fn take_and_kill(&mut self) -> (victim: Option<C>)
        ensures
            (final(self)@, victim) == kill(old(self)@),
    {
        self.child.take()
    }
}

/// Mathematical content of a [`ServerState`].
pub struct ServerStateView<C> {
    /// The process in the slot.
    pub child: Option<C>,
    /// The published startup result.
    pub status: Option<ReadinessView>,
}

/// The state that lives as long as the application: the process slot and
/// the startup result.
pub struct ServerState<C> {
    child: ProcessHandle<C>,
    status: ReadinessBroadcaster,
}

impl<C> View for ServerState<C> {
    type V = ServerStateView<C>;

    closed spec fn view(&self) -> ServerStateView<C> {
        ServerStateView { child: self.child@, status: self.status@ }
    }
}

impl<C> ServerState<C> {
    /// The state with `child` in the slot and `status` as the result cell.
    pub fn new(child: Option<C>, status: ReadinessBroadcaster) -> (state: ServerState<C>)
        ensures
            state@ == (ServerStateView { child, status: status@ }),
    {
        ServerState { child: ProcessHandle::new(child), status }
    }

    /// Stores `child` in the slot, dropping a handle that was there before.
    pub fn set_child(&mut self, child: Option<C>)
        ensures
            final(self)@ == (ServerStateView { child, status: old(self)@.status }),
    {
        self.child.replace(child);
    }

    /// Publishes the startup result unless one was published before, and says
    /// whether it did.
    pub fn publish(&mut self, result: Result<ServerReadyData, String>) -> (accepted: bool)
        ensures
            final(self)@ == (ServerStateView {
                child: old(self)@.child,
                status: offer(old(self)@.status, readiness_view(result)),
            }),
            accepted == (old(self)@.status is None),
    {
        self.status.publish(result)
    }

    /// The result cell, for readers.
    pub fn status(&self) -> (status: &ReadinessBroadcaster)
        ensures
            status@ == self@.status,
    {
        &self.status
    }

    /// Whether the slot holds a process.
    pub fn has_child(&self) -> (live: bool)
        ensures
            live == (self@.child is Some),
    {
        self.child.is_live()
    }
}

/// Empties the process slot of `state` and returns the process that was in
/// it, which the caller is to terminate.  With an empty slot nothing happens.
pub fn kill_sidecar<C>(state: &mut ServerState<C>) -> (victim: Option<C>)
    ensures
        victim == kill(old(state)@.child).1,
        final(state)@ == (ServerStateView {
            child: kill(old(state)@.child).0,
            status: old(state)@.status,
        }),
{
    state.child.take_and_kill()
}

/// Terminating twice in a row: after the first call the slot is empty, so
/// the second call finds nothing to terminate and changes nothing.
pub proof fn lemma_second_kill_is_noop<C>(slot: Option<C>)
    ensures
        kill(slot).0 is None,
        kill(kill(slot).0) == (kill(slot).0, None::<C>),
{
}

} // verus!
