//! The decisions of a window's own thread, from the request to the end of the
//! window: a state machine that takes the outcome of each native step as an
//! event and answers with the next step to perform.
//!
//! The thread registers the class under the registry lock, creates the
//! window, tags the class if it registered it, installs the destroy guard,
//! publishes the outcome to the response slot exactly once, and removes the
//! guard when the window is gone. A failure is published at once, with no
//! window and no guard left behind.

use vstd::prelude::*;
use crate::error::Error;
use crate::registry::Registration;

verus! {

/// Where the window's thread stands.
#[derive(Clone, Copy, Debug, PartialEq, Eq, Structural)]
pub enum WorkerPhase {
    /// Nothing done yet.
    Start,
    /// Waiting for the class to be registered, or found registered.
    Registering,
    /// Waiting for the native window.
    Creating,
    /// Waiting for the class storage to be tagged with the marker.
    Tagging(usize),
    /// Waiting for the destroy guard to be installed.
    Guarding(usize),
    /// The window was published and lives; the thread serves it.
    Serving(usize),
    /// The thread is done: it published a failure, or its window is gone.
    Finished,
}

/// The outcome of the last native step.
#[derive(Clone, Copy, Debug, PartialEq, Eq)]
pub enum WorkerEvent {
    /// The thread starts.
    Begin,
    /// The class registry answered.
    ClassReady(Result<Registration, Error>),
    /// The native window was created (its handle), or not (the error code).
    WindowCreated(Result<usize, u32>),
    /// The marker was written into the class storage.
    ClassTagged,
    /// The destroy guard is in place.
    GuardInstalled,
    /// The window was destroyed.
    WindowDestroyed,
}

/// The next step for the thread to perform.
#[derive(Clone, Copy, Debug, PartialEq, Eq)]
pub enum WorkerAction {
    /// Take the registry lock and make sure the class is registered.
    RegisterClass,
    /// Create the native window.
    CreateWindow,
    /// Write the marker into the class storage, through this window.
    TagClass(usize),
    /// Tag this window's storage and install the destroy guard.
    InstallGuard(usize),
    /// Write this outcome into the response slot and signal the requester.
    Publish(Result<usize, Error>),
    /// Remove the destroy guard; the thread then ends.
    RemoveGuard,
    /// The event does not fit the phase: nothing to do.
    Ignore,
}

/// The state of the thread: its phase, and whether it registered the class.
pub type WorkerState = (WorkerPhase, bool);

/// The thread's answer to `e` in state `s`: the next state and the action.
pub open spec fn worker_step(s: WorkerState, e: WorkerEvent) -> (WorkerState, WorkerAction) {
    let (phase, owner) = s;
    match (phase, e) {
        (WorkerPhase::Start, WorkerEvent::Begin) =>
            ((WorkerPhase::Registering, false), WorkerAction::RegisterClass),
        (WorkerPhase::Registering, WorkerEvent::ClassReady(Ok(reg))) =>
            ((WorkerPhase::Creating, reg == Registration::Registered), WorkerAction::CreateWindow),
        (WorkerPhase::Registering, WorkerEvent::ClassReady(Err(err))) =>
            ((WorkerPhase::Finished, owner), WorkerAction::Publish(Err(err))),
        (WorkerPhase::Creating, WorkerEvent::WindowCreated(Ok(h))) =>
            if owner {
                ((WorkerPhase::Tagging(h), owner), WorkerAction::TagClass(h))
            } else {
                ((WorkerPhase::Guarding(h), owner), WorkerAction::InstallGuard(h))
            },
        (WorkerPhase::Creating, WorkerEvent::WindowCreated(Err(code))) =>
            ((WorkerPhase::Finished, owner), WorkerAction::Publish(Err(Error::WindowCreationFailed(code)))),
        (WorkerPhase::Tagging(h), WorkerEvent::ClassTagged) =>
            ((WorkerPhase::Guarding(h), owner), WorkerAction::InstallGuard(h)),
        (WorkerPhase::Guarding(h), WorkerEvent::GuardInstalled) =>
            ((WorkerPhase::Serving(h), owner), WorkerAction::Publish(Ok(h))),
        (WorkerPhase::Serving(_), WorkerEvent::WindowDestroyed) =>
            ((WorkerPhase::Finished, owner), WorkerAction::RemoveGuard),
        _ => (s, WorkerAction::Ignore),
    }
}

/// Whether the thread has published its outcome.
pub open spec fn has_published(p: WorkerPhase) -> bool {
    p is Serving || p is Finished
}

/// The state after a run of events.
pub open spec fn run_worker(s: WorkerState, events: Seq<WorkerEvent>) -> WorkerState
    decreases events.len(),
{
    if events.len() == 0 {
        s
    } else {
        worker_step(run_worker(s, events.drop_last()), events.last()).0
    }
}

/// The action taken on the `i`-th event of a run.
pub open spec fn action_at(s: WorkerState, events: Seq<WorkerEvent>, i: int) -> WorkerAction {
    worker_step(run_worker(s, events.subrange(0, i)), events[i]).1
}

/// The state machine of a window's thread.
pub struct Worker {
    phase: WorkerPhase,
    class_owner: bool,
}

impl View for Worker {
    type V = WorkerState;

    closed spec fn view(&self) -> WorkerState {
        (self.phase, self.class_owner)
    }
}

impl Worker {
    /// A thread that has done nothing yet.
    pub fn new() -> (r: Worker)
        ensures
            r@ == (WorkerPhase::Start, false),
    {
        Worker { phase: WorkerPhase::Start, class_owner: false }
    }

    /// The current phase.
    pub fn phase(&self) -> (r: WorkerPhase)
        ensures
            r == self@.0,
    {
        self.phase
    }

    /// Whether this thread registered the class.
    pub fn is_class_owner(&self) -> (r: bool)
        ensures
            r == self@.1,
    {
        self.class_owner
    }

    /// Takes the outcome of the last step and answers with the next one.
    pub fn step(&mut self, event: WorkerEvent) -> (r: WorkerAction)
        ensures
            (final(self)@, r) == worker_step(old(self)@, event),
    {
        match (self.phase, event) {
            (WorkerPhase::Start, WorkerEvent::Begin) => {
                self.phase = WorkerPhase::Registering;
                self.class_owner = false;
                WorkerAction::RegisterClass
            },
            (WorkerPhase::Registering, WorkerEvent::ClassReady(Ok(reg))) => {
                self.phase = WorkerPhase::Creating;
                self.class_owner = reg == Registration::Registered;
                WorkerAction::CreateWindow
            },
            (WorkerPhase::Registering, WorkerEvent::ClassReady(Err(err))) => {
                self.phase = WorkerPhase::Finished;
                WorkerAction::Publish(Err(err))
            },
            (WorkerPhase::Creating, WorkerEvent::WindowCreated(Ok(h))) => {
                if self.class_owner {
                    self.phase = WorkerPhase::Tagging(h);
                    WorkerAction::TagClass(h)
                } else {
                    self.phase = WorkerPhase::Guarding(h);
                    WorkerAction::InstallGuard(h)
                }
            },
            (WorkerPhase::Creating, WorkerEvent::WindowCreated(Err(code))) => {
                self.phase = WorkerPhase::Finished;
                WorkerAction::Publish(Err(Error::WindowCreationFailed(code)))
            },
            (WorkerPhase::Tagging(h), WorkerEvent::ClassTagged) => {
                self.phase = WorkerPhase::Guarding(h);
                WorkerAction::InstallGuard(h)
            },
            (WorkerPhase::Guarding(h), WorkerEvent::GuardInstalled) => {
                self.phase = WorkerPhase::Serving(h);
                WorkerAction::Publish(Ok(h))
            },
            (WorkerPhase::Serving(_), WorkerEvent::WindowDestroyed) => {
                self.phase = WorkerPhase::Finished;
                WorkerAction::RemoveGuard
            },
            _ => WorkerAction::Ignore,
        }
    }
}

proof fn lemma_publishes_once_step(s: WorkerState, e: WorkerEvent)
    ensures
        has_published(s.0) ==> has_published(worker_step(s, e).0.0),
        worker_step(s, e).1 is Publish ==> !has_published(s.0) && has_published(worker_step(s, e).0.0),
        worker_step(s, e).1 is TagClass ==> s.0 == WorkerPhase::Creating && s.1,
{
}

proof fn lemma_stays_published(s: WorkerState, events: Seq<WorkerEvent>)
    requires
        has_published(s.0),
    ensures
        has_published(run_worker(s, events).0),
    decreases events.len(),
{
    if events.len() > 0 {
        lemma_stays_published(s, events.drop_last());
        lemma_publishes_once_step(run_worker(s, events.drop_last()), events.last());
    }
}

proof fn lemma_run_split(s: WorkerState, a: Seq<WorkerEvent>, b: Seq<WorkerEvent>)
    ensures
        run_worker(s, a + b) == run_worker(run_worker(s, a), b),
    decreases b.len(),
{
    if b.len() == 0 {
        assert(a + b =~= a);
    } else {
        assert((a + b).drop_last() =~= a + b.drop_last());
        lemma_run_split(s, a, b.drop_last());
    }
}

/// A creation publishes its outcome at most once: of any run of events, at
/// most one is answered with a write to the response slot.
pub proof fn lemma_publishes_at_most_once(s: WorkerState, events: Seq<WorkerEvent>, i: int, j: int)
    requires
        0 <= i < j < events.len(),
    ensures
        !(action_at(s, events, i) is Publish && action_at(s, events, j) is Publish),
{
    if action_at(s, events, i) is Publish {
        let before = run_worker(s, events.subrange(0, i));
        lemma_publishes_once_step(before, events[i]);
        assert(events.subrange(0, i + 1).drop_last() =~= events.subrange(0, i));
        let rest = events.subrange(i + 1, j);
        lemma_run_split(s, events.subrange(0, i + 1), rest);
        assert(events.subrange(0, i + 1) + rest =~= events.subrange(0, j));
        lemma_stays_published(run_worker(s, events.subrange(0, i + 1)), rest);
        lemma_publishes_once_step(run_worker(s, events.subrange(0, j)), events[j]);
    }
}

/// A failure is published before any guard is installed: an error goes out
/// only while the class or the window is being made; success goes out only
/// once the guard of that very window is in place.
pub proof fn lemma_publish_points(s: WorkerState, e: WorkerEvent)
    ensures
        worker_step(s, e).1 matches WorkerAction::Publish(Err(_)) ==> (s.0 == WorkerPhase::Registering || s.0 == WorkerPhase::Creating),
        worker_step(s, e).1 matches WorkerAction::Publish(Ok(h)) ==> s.0 == WorkerPhase::Guarding(h),
        worker_step(s, e).1 matches WorkerAction::InstallGuard(h) ==> (s.0 == WorkerPhase::Creating || s.0 == WorkerPhase::Tagging(h)),
{
}

/// The class storage is tagged only by the thread that registered the class,
/// and only right after it created its window.
pub proof fn lemma_tag_only_by_owner(s: WorkerState, e: WorkerEvent)
    requires
        worker_step(s, e).1 is TagClass,
    ensures
        s.0 == WorkerPhase::Creating,
        s.1,
        e is WindowCreated,
{
    lemma_publishes_once_step(s, e);
}

} // verus!
