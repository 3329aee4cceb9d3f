use leptos::prelude::Owner;
use leptos_react::{ContextState, MountState};
use std::rc::Rc;
use std::sync::atomic::{AtomicUsize, Ordering};
use std::sync::Arc;

#[test]
fn mount_state_starts_mounted() {
    let state = MountState::new(7u32);
    assert!(state.is_mounted());
}

#[test]
fn unmount_drops_the_handle_once() {
    let handle = Rc::new(());
    let mut state = MountState::new(Rc::clone(&handle));
    assert_eq!(Rc::strong_count(&handle), 2);
    assert!(state.unmount());
    assert_eq!(Rc::strong_count(&handle), 1);
    assert!(!state.is_mounted());
}

#[test]
fn unmount_is_idempotent() {
    let mut state = MountState::new("view");
    assert!(state.unmount());
    assert!(!state.unmount());
    assert!(!state.is_mounted());
}

#[test]
fn context_runs_callback_in_its_owner() {
    let owner = Owner::new();
    let state = ContextState::new(owner.clone());
    assert!(state.is_live());
    let inside = state.with(|| Owner::current());
    assert_eq!(inside, Some(owner));
}

#[test]
fn context_hands_back_the_callback_result() {
    let state = ContextState::new(Owner::new());
    assert_eq!(state.with(|| 40 + 2), 42);
}

#[test]
fn cleaned_context_runs_callback_on_its_own() {
    let mut state = ContextState::new(Owner::new());
    assert!(state.cleanup());
    assert!(!state.is_live());
    assert_eq!(state.with(|| Owner::current()), None);
    assert_eq!(state.with(|| "done"), "done");
}

#[test]
fn cleanup_is_idempotent() {
    let mut state = ContextState::new(Owner::new());
    assert!(state.cleanup());
    assert!(!state.cleanup());
    assert!(!state.is_live());
}

#[test]
fn cleanup_runs_the_owner_cleanups() {
    let owner = Owner::new();
    let count = Arc::new(AtomicUsize::new(0));
    let counter = Arc::clone(&count);
    owner.with(|| Owner::on_cleanup(move || {
        counter.fetch_add(1, Ordering::SeqCst);
    }));
    let mut state = ContextState::new(owner);
    assert!(state.cleanup());
    assert_eq!(count.load(Ordering::SeqCst), 1);
    assert!(!state.cleanup());
    assert_eq!(count.load(Ordering::SeqCst), 1);
}
