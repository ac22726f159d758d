//! The lifecycle of one window of this library, as gated by its destroy flag.

use vstd::prelude::*;
use crate::guard::{flag_decision, HookDecision};

verus! {

/// Where a window stands.
#[derive(Clone, Copy, Debug, PartialEq, Eq, Structural)]
pub enum WindowState {
    /// Alive; its destroy flag is down and destruction is vetoed.
    Live,
    /// The owner asked for it to close; its destroy flag is up.
    ClosingRequested,
    /// Destroyed; the handle is no longer valid.
    Destroyed,
}

/// An event in a window's life.
#[derive(Clone, Copy, Debug, PartialEq, Eq, Structural)]
pub enum LifeEvent {
    /// The owner's close operation.
    Close,
    /// A native attempt to destroy the window, from any source.
    DestroyAttempt,
}

/// A window's destroy flag: down only while the window is live.
pub open spec fn destroy_flag_of(s: WindowState) -> bool {
    s != WindowState::Live
}

/// The state after the owner's close operation.
pub open spec fn close_step(s: WindowState) -> WindowState {
    if s == WindowState::Live {
        WindowState::ClosingRequested
    } else {
        s
    }
}

/// The guard's decision on a destroy attempt, and the state after it.
pub open spec fn attempt_step(s: WindowState) -> (WindowState, HookDecision) {
    let d = flag_decision(destroy_flag_of(s));
    (if d == HookDecision::Allow { WindowState::Destroyed } else { s }, d)
}

/// The state after a run of events on a window that is not destroyed
/// before its last event.
pub open spec fn run_life(s: WindowState, events: Seq<LifeEvent>) -> WindowState
    decreases events.len(),
{
    if events.len() == 0 {
        s
    } else {
        let before = run_life(s, events.drop_last());
        match events.last() {
            LifeEvent::Close => close_step(before),
            LifeEvent::DestroyAttempt => attempt_step(before).0,
        }
    }
}

/// The lifecycle of one window.
pub struct Lifecycle {
    state: WindowState,
}

impl View for Lifecycle {
    type V = WindowState;

    closed spec fn view(&self) -> WindowState {
        self.state
    }
}

impl Lifecycle {
    /// A window that was just created: live, its destroy flag down.
    pub fn new() -> (r: Lifecycle)
        ensures
            r@ == WindowState::Live,
            !destroy_flag_of(r@),
    {
        Lifecycle { state: WindowState::Live }
    }

    /// Where the window stands.
    pub fn state(&self) -> (r: WindowState)
        ensures
            r == self@,
    {
        self.state
    }

    /// The window's destroy flag.
    pub fn destroy_flag(&self) -> (r: bool)
        ensures
            r == destroy_flag_of(self@),
    {
        self.state != WindowState::Live
    }

    /// The owner's close operation: raises the destroy flag, which stays up.
    pub fn close(&mut self)
        ensures
            final(self)@ == close_step(old(self)@),
            destroy_flag_of(final(self)@),
    {
        if self.state == WindowState::Live {
            self.state = WindowState::ClosingRequested;
        }
    }

    /// A native attempt to destroy the window, filtered by the guard: vetoed
    /// while the flag is down, allowed (and the window destroyed) once it is up.
    pub fn destroy_attempt(&mut self) -> (r: HookDecision)
        requires
            old(self)@ != WindowState::Destroyed,
        ensures
            (final(self)@, r) == attempt_step(old(self)@),
            old(self)@ == WindowState::Live ==> r == HookDecision::Prevent && final(self)@ == WindowState::Live,
            old(self)@ == WindowState::ClosingRequested ==> r == HookDecision::Allow && final(self)@ == WindowState::Destroyed,
    {
        if self.state != WindowState::Live {
            self.state = WindowState::Destroyed;
            HookDecision::Allow
        } else {
            HookDecision::Prevent
        }
    }
}

/// Before the owner closes a window, every destroy attempt is vetoed: a live
/// window that sees only destroy attempts stays live, its flag down.
pub proof fn lemma_vetoed_until_closed(events: Seq<LifeEvent>)
    requires
        forall|i: int| 0 <= i < events.len() ==> events[i] == LifeEvent::DestroyAttempt,
    ensures
        run_life(WindowState::Live, events) == WindowState::Live,
        !destroy_flag_of(run_life(WindowState::Live, events)),
        forall|i: int| 0 <= i < events.len() ==>
            attempt_step(#[trigger] run_life(WindowState::Live, events.subrange(0, i))).1 == HookDecision::Prevent,
    decreases events.len(),
{
    if events.len() > 0 {
        lemma_vetoed_until_closed(events.drop_last());
        assert forall|i: int| 0 <= i < events.len() implies
            attempt_step(#[trigger] run_life(WindowState::Live, events.subrange(0, i))).1 == HookDecision::Prevent by {
            lemma_vetoed_until_closed(events.subrange(0, i));
        }
    }
}

/// Once the owner closed a live window, the next destroy attempt is allowed
/// and the window is destroyed; closing again before it changes nothing.
pub proof fn lemma_close_then_destroyed(s: WindowState)
    requires
        s != WindowState::Destroyed,
    ensures
        destroy_flag_of(close_step(s)),
        close_step(close_step(s)) == close_step(s),
        attempt_step(close_step(s)) == (WindowState::Destroyed, HookDecision::Allow),
{
}

} // verus!
