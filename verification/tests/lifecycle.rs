use winit_tray::lifecycle::{CreationError, CreationFailure, DestroyStep, Lifecycle, LifecycleState};

fn live() -> Lifecycle {
    let mut record = Lifecycle::new();
    assert_eq!(record.begin_create(true), Ok(()));
    assert!(record.install_record(true));
    assert_eq!(record.finish_create(true, 0), Ok(()));
    record
}

#[test]
fn a_new_record_is_uninitialized() {
    let record = Lifecycle::new();
    assert_eq!(record.state(), LifecycleState::Uninitialized);
    assert_eq!(record.recurse_depth(), 0);
    assert!(!record.userdata_removed());
    assert!(!record.is_installed());
    assert!(!record.panic_captured());
    assert!(!record.is_dispatchable());
}

#[test]
fn creation_off_the_ui_thread_is_refused_and_changes_nothing() {
    let mut record = Lifecycle::new();
    assert_eq!(record.begin_create(false), Err(CreationError::WrongThread));
    assert_eq!(record.state(), LifecycleState::Uninitialized);
    assert_eq!(record.begin_create(true), Ok(()));
    assert_eq!(record.state(), LifecycleState::Creating);
}

#[test]
fn creation_goes_through_creating_to_live() {
    let mut record = Lifecycle::new();
    record.begin_create(true).unwrap();
    assert!(!record.is_dispatchable());
    assert!(record.install_record(true));
    assert!(record.is_installed());
    assert_eq!(record.state(), LifecycleState::Creating);
    assert!(record.is_dispatchable());
    assert_eq!(record.finish_create(true, 0), Ok(()));
    assert_eq!(record.state(), LifecycleState::Live);
}

#[test]
fn a_failure_in_the_first_hook_is_kept_and_reported_after_the_native_call() {
    let mut record = Lifecycle::new();
    record.begin_create(true).unwrap();
    assert!(!record.install_record(false));
    assert!(record.panic_captured());
    assert!(!record.is_installed());
    assert_eq!(
        record.finish_create(false, 1400),
        Err(CreationFailure { error: CreationError::PanicDuringConstruction, release_record: false })
    );
    assert_eq!(record.state(), LifecycleState::Destroyed);
    assert!(!record.panic_captured());
}

#[test]
fn a_failure_in_a_later_callback_comes_before_a_valid_handle() {
    let mut record = Lifecycle::new();
    record.begin_create(true).unwrap();
    record.install_record(true);
    record.capture_panic();
    assert_eq!(
        record.finish_create(true, 0),
        Err(CreationFailure { error: CreationError::PanicDuringConstruction, release_record: true })
    );
    assert_eq!(record.state(), LifecycleState::Destroyed);
    assert!(!record.is_installed());
}

#[test]
fn a_missing_handle_is_reported_with_the_error_code() {
    let mut record = Lifecycle::new();
    record.begin_create(true).unwrap();
    record.install_record(true);
    assert_eq!(
        record.finish_create(false, 8),
        Err(CreationFailure { error: CreationError::CreationFailed(8), release_record: true })
    );
    assert_eq!(record.state(), LifecycleState::Destroyed);
    assert!(!record.enter());
}

#[test]
fn callbacks_count_the_depth_up_and_down() {
    let mut record = live();
    assert!(record.enter());
    assert!(record.enter());
    assert_eq!(record.recurse_depth(), 2);
    assert!(!record.exit());
    assert!(!record.exit());
    assert_eq!(record.recurse_depth(), 0);
    assert_eq!(record.state(), LifecycleState::Live);
    assert!(!record.exit());
    assert_eq!(record.recurse_depth(), 0);
}

#[test]
fn destruction_under_a_nested_callback_is_deferred_until_the_outermost_returns() {
    let mut record = live();
    let mut frees = 0;
    // The outer callback runs ...
    assert!(record.enter());
    // ... and the platform re-enters the callback from inside it.
    assert!(record.enter());
    assert!(record.enter());
    assert_eq!(record.request_destroy(), DestroyStep::Deferred);
    assert_eq!(record.state(), LifecycleState::PendingDestroy);
    assert!(record.is_installed());
    // The destruction of the window calls back once more: the record is out of reach.
    assert!(!record.enter());
    assert_eq!(record.recurse_depth(), 3);
    for expected_depth in [2, 1] {
        if record.exit() {
            frees += 1;
        }
        assert_eq!(frees, 0);
        assert!(record.is_installed());
        assert_eq!(record.recurse_depth(), expected_depth);
    }
    if record.exit() {
        frees += 1;
    }
    assert_eq!(frees, 1);
    assert!(!record.is_installed());
    assert_eq!(record.state(), LifecycleState::Destroyed);
    // Nothing frees it again.
    for _ in 0..3 {
        assert!(!record.enter());
        assert!(!record.exit());
        assert_eq!(record.request_destroy(), DestroyStep::Ignored);
    }
    assert_eq!(frees, 1);
}

#[test]
fn a_second_request_is_ignored() {
    let mut record = live();
    assert!(record.enter());
    assert_eq!(record.request_destroy(), DestroyStep::Deferred);
    assert_eq!(record.request_destroy(), DestroyStep::Ignored);
    assert!(record.exit());
    assert_eq!(record.request_destroy(), DestroyStep::Ignored);
    assert_eq!(record.state(), LifecycleState::Destroyed);
}

#[test]
fn destruction_outside_any_callback_frees_at_once() {
    let mut record = live();
    assert_eq!(record.request_destroy(), DestroyStep::FreeNow);
    assert_eq!(record.state(), LifecycleState::Destroyed);
    assert!(!record.is_installed());
    assert!(record.userdata_removed());
    assert_eq!(record.request_destroy(), DestroyStep::Ignored);
}

#[test]
fn a_request_before_creation_is_ignored() {
    let mut record = Lifecycle::new();
    assert_eq!(record.request_destroy(), DestroyStep::Ignored);
    assert!(!record.enter());
    assert_eq!(record.state(), LifecycleState::Uninitialized);
}
