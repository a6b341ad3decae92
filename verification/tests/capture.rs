use input_relay::capture::{CaptureError, CaptureState};

#[test]
fn new_state_is_not_running() {
    let state = CaptureState::new();
    assert!(!state.is_running());
}

#[test]
fn begin_capture_twice_succeeds_then_fails() {
    let mut state = CaptureState::new();
    assert!(state.begin_capture().is_ok());
    assert!(state.is_running());
    match state.begin_capture() {
        Err(CaptureError::AlreadyRunning) => {}
        other => panic!("{:?}", other),
    }
    assert!(state.is_running());
}

#[test]
fn begin_capture_never_succeeds_again() {
    let mut state = CaptureState::new();
    let mut successes: u32 = 0;
    let mut refusals: u32 = 0;
    let mut call: u32 = 0;
    while call < 50 {
        match state.begin_capture() {
            Ok(()) => {
                assert_eq!(call, 0);
                successes += 1;
            }
            Err(CaptureError::AlreadyRunning) => refusals += 1,
            Err(other) => panic!("{:?}", other),
        }
        assert!(state.is_running());
        call += 1;
    }
    assert_eq!(successes, 1);
    assert_eq!(refusals, 49);
}

#[test]
fn states_are_independent() {
    let mut first = CaptureState::new();
    let mut second = CaptureState::new();
    assert!(first.begin_capture().is_ok());
    assert!(!second.is_running());
    assert!(second.begin_capture().is_ok());
    assert!(first.begin_capture().is_err());
    assert!(second.begin_capture().is_err());
}

#[test]
fn already_running_message_is_fixed() {
    assert_eq!(CaptureError::AlreadyRunning.message(), "Device listener is already running");
}

#[test]
fn hook_registration_message_is_the_detail() {
    let error = CaptureError::HookRegistration("MissingDisplayError".to_string());
    assert_eq!(error.message(), "MissingDisplayError");
}
