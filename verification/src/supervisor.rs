//! The supervisor's single child slot: populated once by the launcher,
//! emptied by the shutdown hook, never holding more than one live child.
//!
//! The slot stores a plain identifier for the owned OS child; the host
//! keeps the actual process handle beside it and performs the kill when
//! the shutdown hook hands the identifier back.

use vstd::prelude::*;

verus! {

/// A host-lifecycle event that touches the child slot: the launcher
/// storing a freshly spawned child, or the shutdown hook emptying the
/// slot for a kill.
pub enum HostEvent {
    Launch(u32),
    Shutdown,
}

/// Process-wide supervisor state: at most one owned child.
pub struct SupervisorState {
    child: Option<u32>,
}

impl SupervisorState {
    /// The identifier of the owned live child, if any.
    pub closed spec fn child_id(self) -> Option<u32> {
        self.child
    }

    /// Fresh state: no child yet.
    pub fn new() -> (s: Self)
        ensures
            s.child_id() is None,
    {
        SupervisorState { child: None }
    }

    /// Whether the state currently owns a child.
    pub fn has_child(&self) -> (b: bool)
        ensures
            b == (self.child_id() is Some),
    {
        self.child.is_some()
    }

    /// Store the freshly spawned child. The launcher runs at most once
    /// per application run, before any teardown, so the slot is empty.
    pub fn register_child(&mut self, id: u32)
        requires
            old(self).child_id() is None,
        ensures
            final(self).child_id() == step(old(self).child_id(), HostEvent::Launch(id)),
            final(self).child_id() == Some(id),
    {
        self.child = Some(id);
    }

    /// Shutdown hook: empty the slot and hand back the child to kill, if
    /// one is owned. With an empty slot this is a no-op, not an error.
    pub fn take_child(&mut self) -> (taken: Option<u32>)
        ensures
            final(self).child_id() == step(old(self).child_id(), HostEvent::Shutdown),
            final(self).child_id() is None,
            taken == shutdown_kill(old(self).child_id()),
            taken == old(self).child_id(),
    {
        let t = self.child;
        self.child = None;
        t
    }
}

/// How many live children a slot holds.
pub open spec fn live_count(child: Option<u32>) -> nat {
    if child is Some {
        1
    } else {
        0
    }
}

/// One host event applied to the child slot.
pub open spec fn step(child: Option<u32>, e: HostEvent) -> Option<u32> {
    match e {
        HostEvent::Launch(id) => Some(id),
        HostEvent::Shutdown => None,
    }
}

/// The kill the shutdown hook attempts from a given slot: the owned
/// child, or none.
pub open spec fn shutdown_kill(child: Option<u32>) -> Option<u32> {
    child
}

/// The child slot after a run of host events, starting empty.
pub open spec fn run_events(events: Seq<HostEvent>) -> Option<u32>
    decreases events.len(),
{
    if events.len() == 0 {
        None
    } else {
        step(run_events(events.drop_last()), events.last())
    }
}

/// How many launches a run of host events contains.
pub open spec fn launches(events: Seq<HostEvent>) -> nat
    decreases events.len(),
{
    if events.len() == 0 {
        0
    } else {
        launches(events.drop_last()) + (if events.last() is Launch {
            1nat
        } else {
            0nat
        })
    }
}

/// At most one live child: after any run of host events respecting the
/// host lifecycle — the launcher runs at most once, the shutdown hook any
/// number of times — the state owns at most one live child, and an owned
/// child is one that some launch event stored.
pub proof fn lemma_at_most_one_live(events: Seq<HostEvent>)
    requires
        launches(events) <= 1,
    ensures
        live_count(run_events(events)) <= 1,
        run_events(events) is Some ==> exists|i: int|
            0 <= i < events.len() && events[i] == HostEvent::Launch(run_events(events)->Some_0),
    decreases events.len(),
{
    if events.len() > 0 {
        lemma_at_most_one_live(events.drop_last());
        match events.last() {
            HostEvent::Launch(id) => {
                assert(events[events.len() - 1] == HostEvent::Launch(id));
            },
            HostEvent::Shutdown => {
            },
        }
    }
}

/// Idempotent shutdown: a second shutdown right after a first finds the
/// slot empty, attempts no kill, and leaves the slot as the first left
/// it.
pub proof fn lemma_shutdown_idempotent(child: Option<u32>)
    ensures
        shutdown_kill(step(child, HostEvent::Shutdown)) is None,
        step(step(child, HostEvent::Shutdown), HostEvent::Shutdown) == step(
            child,
            HostEvent::Shutdown,
        ),
{
}

} // verus!
