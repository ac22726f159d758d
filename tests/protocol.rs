use std::sync::atomic::{AtomicUsize, Ordering};
use std::sync::Arc;

use ramen::error::Error;
use ramen::guard::{destroy_decision, is_library_window, HookDecision, HCBT_DESTROYWND, LIBRARY_WINDOW_MARKER};
use ramen::lifecycle::{Lifecycle, WindowState};
use ramen::registry::{ClassRegistry, Registration};
use ramen::slot::{publish_and_notify, ResponseSlot, SlotPoll};
use ramen::wide::str_to_wstr;
use ramen::window::Window;
use ramen::worker::{Worker, WorkerAction, WorkerEvent, WorkerPhase};

const WORD: usize = std::mem::size_of::<usize>();
const MARK: usize = LIBRARY_WINDOW_MARKER as usize;

fn wide(s: &str) -> Vec<u16> {
    let mut buffer = Vec::new();
    str_to_wstr(s, &mut buffer);
    buffer
}

#[test]
fn marker_spells_viri() {
    assert_eq!(LIBRARY_WINDOW_MARKER, u32::from_be_bytes(*b"viri"));
}

#[test]
fn registry_registers_once() {
    let mut registry = ClassRegistry::new();
    let name = wide("ramen_window_class");
    let calls = AtomicUsize::new(0);
    for i in 0..5 {
        let r = registry.ensure_registered(&name, || {
            calls.fetch_add(1, Ordering::SeqCst);
            Ok(0xC001)
        });
        if i == 0 {
            assert_eq!(r, Ok(Registration::Registered));
        } else {
            assert_eq!(r, Ok(Registration::AlreadyExisted));
        }
    }
    assert_eq!(calls.load(Ordering::SeqCst), 1);
    assert!(registry.is_registered(&name));
    assert!(!registry.is_registered(&wide("other")));
}

#[test]
fn registry_shared_behind_lock_same_name() {
    let registry = Arc::new(parking_lot::Mutex::new(ClassRegistry::new()));
    let calls = Arc::new(AtomicUsize::new(0));
    let creators: Vec<_> = (0..8)
        .map(|_| {
            let registry = Arc::clone(&registry);
            let calls = Arc::clone(&calls);
            move || {
                let name = wide("ramen_window_class");
                let mut guard = registry.lock();
                guard.ensure_registered(&name, || {
                    calls.fetch_add(1, Ordering::SeqCst);
                    Ok(1)
                })
            }
        })
        .collect();
    let outcomes: Vec<_> = creators.into_iter().map(|c| c()).collect();
    assert_eq!(calls.load(Ordering::SeqCst), 1);
    assert!(outcomes.iter().all(|r| r.is_ok()));
    assert_eq!(outcomes.iter().filter(|r| **r == Ok(Registration::Registered)).count(), 1);
}

#[test]
fn registry_failure_keeps_code_and_allows_retry() {
    let mut registry = ClassRegistry::new();
    let name = wide("c");
    assert_eq!(registry.ensure_registered(&name, || Err(87)), Err(Error::ClassRegistrationFailed(87)));
    assert!(!registry.is_registered(&name));
    assert_eq!(registry.ensure_registered(&name, || Ok(5)), Ok(Registration::Registered));
}

#[test]
fn slot_rejects_second_write() {
    let mut slot = ResponseSlot::new();
    assert!(!slot.is_written());
    assert_eq!(slot.publish(1u32), Ok(()));
    assert_eq!(slot.publish(2u32), Err(2));
    assert_eq!(slot.take(), Some(1));
    assert_eq!(slot.take(), None);
    assert_eq!(slot.publish(3u32), Err(3));
    assert!(slot.is_written());
}

#[test]
fn slot_forced_double_publish_with_signal() {
    let cvar = parking_lot::Condvar::new();
    let slot = parking_lot::Mutex::new(ResponseSlot::new());
    let mut guard = slot.lock();
    assert_eq!(publish_and_notify(&mut guard, &cvar, Ok::<usize, Error>(7)), Ok(()));
    assert_eq!(
        publish_and_notify(&mut guard, &cvar, Err(Error::CoordinationFailure)),
        Err(Err(Error::CoordinationFailure))
    );
    assert!(matches!(guard.poll(false), SlotPoll::Ready(Ok(7))));
}

#[test]
fn slot_poll_outcomes() {
    let mut slot: ResponseSlot<u32> = ResponseSlot::new();
    assert!(matches!(slot.poll(false), SlotPoll::Pending));
    assert!(matches!(slot.poll(true), SlotPoll::Abandoned(Error::CoordinationFailure)));
    slot.publish(9).unwrap();
    assert!(matches!(slot.poll(true), SlotPoll::Ready(9)));
    assert!(matches!(slot.poll(false), SlotPoll::Pending));
}

#[test]
fn guard_forwards_tag_one_bit_off() {
    let off = MARK ^ 1;
    assert!(!is_library_window(HCBT_DESTROYWND, WORD, off, MARK));
    assert_eq!(destroy_decision(HCBT_DESTROYWND, WORD, off, MARK, false), HookDecision::Forward);
    assert_eq!(destroy_decision(HCBT_DESTROYWND, WORD, off, MARK, true), HookDecision::Forward);
    assert_eq!(destroy_decision(HCBT_DESTROYWND, WORD, MARK, off, false), HookDecision::Forward);
}

#[test]
fn guard_forwards_other_codes_and_layouts() {
    assert_eq!(destroy_decision(3, WORD, MARK, MARK, false), HookDecision::Forward);
    assert_eq!(destroy_decision(HCBT_DESTROYWND, 0, MARK, MARK, false), HookDecision::Forward);
}

#[test]
fn guard_decides_for_library_windows() {
    assert!(is_library_window(HCBT_DESTROYWND, WORD, MARK, MARK));
    assert_eq!(destroy_decision(HCBT_DESTROYWND, WORD, MARK, MARK, false), HookDecision::Prevent);
    assert_eq!(destroy_decision(HCBT_DESTROYWND, WORD, MARK, MARK, true), HookDecision::Allow);
    assert_eq!(HookDecision::Allow.hook_result(), Some(0));
    assert_eq!(HookDecision::Prevent.hook_result(), Some(1));
    assert_eq!(HookDecision::Forward.hook_result(), None);
}

#[test]
fn destroy_vetoed_before_close() {
    let mut life = Lifecycle::new();
    assert!(!life.destroy_flag());
    for _ in 0..3 {
        assert_eq!(life.destroy_attempt(), HookDecision::Prevent);
        assert_eq!(life.state(), WindowState::Live);
    }
}

#[test]
fn destroy_allowed_after_close() {
    let mut life = Lifecycle::new();
    life.close();
    assert!(life.destroy_flag());
    assert_eq!(life.state(), WindowState::ClosingRequested);
    life.close();
    assert_eq!(life.state(), WindowState::ClosingRequested);
    assert_eq!(life.destroy_attempt(), HookDecision::Allow);
    assert_eq!(life.state(), WindowState::Destroyed);
    assert!(life.destroy_flag());
}

#[test]
fn worker_owner_path() {
    let mut w = Worker::new();
    assert_eq!(w.step(WorkerEvent::Begin), WorkerAction::RegisterClass);
    assert_eq!(w.step(WorkerEvent::ClassReady(Ok(Registration::Registered))), WorkerAction::CreateWindow);
    assert!(w.is_class_owner());
    assert_eq!(w.step(WorkerEvent::WindowCreated(Ok(0x10))), WorkerAction::TagClass(0x10));
    assert_eq!(w.step(WorkerEvent::ClassTagged), WorkerAction::InstallGuard(0x10));
    assert_eq!(w.step(WorkerEvent::GuardInstalled), WorkerAction::Publish(Ok(0x10)));
    assert_eq!(w.phase(), WorkerPhase::Serving(0x10));
    assert_eq!(w.step(WorkerEvent::GuardInstalled), WorkerAction::Ignore);
    assert_eq!(w.step(WorkerEvent::WindowDestroyed), WorkerAction::RemoveGuard);
    assert_eq!(w.phase(), WorkerPhase::Finished);
}

#[test]
fn worker_non_owner_skips_tagging() {
    let mut w = Worker::new();
    w.step(WorkerEvent::Begin);
    w.step(WorkerEvent::ClassReady(Ok(Registration::AlreadyExisted)));
    assert!(!w.is_class_owner());
    assert_eq!(w.step(WorkerEvent::WindowCreated(Ok(0x20))), WorkerAction::InstallGuard(0x20));
    assert_eq!(w.step(WorkerEvent::GuardInstalled), WorkerAction::Publish(Ok(0x20)));
}

#[test]
fn worker_creation_failure_publishes_error() {
    let mut w = Worker::new();
    w.step(WorkerEvent::Begin);
    w.step(WorkerEvent::ClassReady(Ok(Registration::Registered)));
    assert_eq!(
        w.step(WorkerEvent::WindowCreated(Err(1400))),
        WorkerAction::Publish(Err(Error::WindowCreationFailed(1400)))
    );
    assert_eq!(w.phase(), WorkerPhase::Finished);
    assert_eq!(w.step(WorkerEvent::GuardInstalled), WorkerAction::Ignore);
}

#[test]
fn worker_registration_failure_publishes_error() {
    let mut w = Worker::new();
    w.step(WorkerEvent::Begin);
    assert_eq!(
        w.step(WorkerEvent::ClassReady(Err(Error::ClassRegistrationFailed(5)))),
        WorkerAction::Publish(Err(Error::ClassRegistrationFailed(5)))
    );
    assert_eq!(w.step(WorkerEvent::WindowCreated(Ok(1))), WorkerAction::Ignore);
}

#[test]
fn worker_ignores_out_of_order_events() {
    let mut w = Worker::new();
    assert_eq!(w.step(WorkerEvent::GuardInstalled), WorkerAction::Ignore);
    assert_eq!(w.phase(), WorkerPhase::Start);
}

/// Runs one creation against a simulated native layer: `registrations`
/// counts native class registrations, `next_handle` hands out handles.
fn create(registry: &mut ClassRegistry, title: &str, class: &str, registrations: &AtomicUsize, next_handle: &mut usize) -> Result<Window, Error> {
    let mut builder = Window::builder();
    builder.title(title).class_name(class);
    builder.build(|request| {
        assert_eq!(request.title, wide(title));
        let mut slot = ResponseSlot::new();
        let mut worker = Worker::new();
        let mut event = WorkerEvent::Begin;
        loop {
            match worker.step(event) {
                WorkerAction::RegisterClass => {
                    let r = registry.ensure_registered(&request.class_name, || {
                        registrations.fetch_add(1, Ordering::SeqCst);
                        Ok(1)
                    });
                    event = WorkerEvent::ClassReady(r);
                }
                WorkerAction::CreateWindow => {
                    *next_handle += 1;
                    event = WorkerEvent::WindowCreated(Ok(*next_handle));
                }
                WorkerAction::TagClass(_) => event = WorkerEvent::ClassTagged,
                WorkerAction::InstallGuard(_) => event = WorkerEvent::GuardInstalled,
                WorkerAction::Publish(outcome) => {
                    assert!(slot.publish(outcome).is_ok());
                    break;
                }
                WorkerAction::RemoveGuard | WorkerAction::Ignore => unreachable!(),
            }
        }
        match slot.poll(false) {
            SlotPoll::Ready(outcome) => outcome,
            _ => unreachable!(),
        }
    })
}

#[test]
fn end_to_end_two_windows_one_class() {
    let mut registry = ClassRegistry::new();
    let registrations = AtomicUsize::new(0);
    let mut next_handle = 0x100usize;
    let mut first = create(&mut registry, "a nice window", "ramen_window_class", &registrations, &mut next_handle).unwrap();
    assert_eq!(registrations.load(Ordering::SeqCst), 1);
    let mut second = create(&mut registry, "a nice window", "ramen_window_class", &registrations, &mut next_handle).unwrap();
    assert_eq!(registrations.load(Ordering::SeqCst), 1);
    assert_ne!(first.handle(), second.handle());
    assert_eq!(first.state(), WindowState::Live);
    assert_eq!(second.state(), WindowState::Live);

    first.close();
    assert!(first.destroy_flag());
    assert!(!second.destroy_flag());
    assert_eq!(first.destroy_attempt(), HookDecision::Allow);
    assert_eq!(first.state(), WindowState::Destroyed);
    assert_eq!(second.destroy_attempt(), HookDecision::Prevent);
    assert_eq!(second.state(), WindowState::Live);
}

#[test]
fn build_passes_error_through() {
    let builder = Window::builder();
    let r = builder.build(|request| {
        assert_eq!(request.class_name, wide("ramen_window_class"));
        Err(Error::WindowCreationFailed(1407))
    });
    assert!(matches!(r, Err(Error::WindowCreationFailed(1407))));
}

#[test]
fn from_outcome_keeps_error() {
    assert!(matches!(Window::from_outcome(Err(Error::CoordinationFailure)), Err(Error::CoordinationFailure)));
    let w = Window::from_outcome(Ok(42)).unwrap();
    assert_eq!(w.handle(), 42);
}
