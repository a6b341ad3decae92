//! The capture guard: a one-shot latch that admits a single hook
//! registration for the life of the process.
//!
//! The latch is set when capture begins and is never cleared: nothing in this
//! library ends a capture, so a hook that fails or terminates leaves the
//! process unable to start another one.

use vstd::prelude::*;
use vstd::string::*;

verus! {

/// Why capture did not start, or did not go on.
#[derive(Debug)]
pub enum CaptureError {
    /// A hook is registered already.
    AlreadyRunning,
    /// The platform refused to install the hook; the text is its description
    /// of the failure.
    HookRegistration(String),
}

impl CaptureError {
    /// The message that goes with the error.
    pub open spec fn message_text(self) -> Seq<char> {
        match self {
            CaptureError::AlreadyRunning => "Device listener is already running"@,
            CaptureError::HookRegistration(detail) => detail@,
        }
    }

    /// Returns the human-readable message of the error.
    pub fn message(&self) -> (message: String)
        ensures
            message@ == self.message_text(),
    {
        match self {
            CaptureError::AlreadyRunning => "Device listener is already running".to_owned(),
            CaptureError::HookRegistration(detail) => detail.clone(),
        }
    }
}

/// What a request to begin capture returns, given whether a hook is
/// registered at the time.
pub open spec fn begin_outcome(running: bool) -> Result<(), CaptureError> {
    if running {
        Err(CaptureError::AlreadyRunning)
    } else {
        Ok(())
    }
}

/// What `calls` requests in succession return, the first of them made when
/// `running` tells whether a hook is registered.
pub open spec fn begin_outcomes(running: bool, calls: nat) -> Seq<Result<(), CaptureError>>
    decreases calls,
{
    if calls == 0 {
        Seq::empty()
    } else {
        seq![begin_outcome(running)] + begin_outcomes(true, (calls - 1) as nat)
    }
}

/// Whether a hook is registered in this process.
pub struct CaptureState {
    running: bool,
}

impl View for CaptureState {
    type V = bool;

    /// Whether capture has begun.
    closed spec fn view(&self) -> bool {
        self.running
    }
}

impl CaptureState {
    /// The state of a process in which capture has not begun.
    pub fn new() -> (state: CaptureState)
        ensures
            !state@,
    {
        CaptureState { running: false }
    }

    /// Whether capture has begun.
    pub fn is_running(&self) -> (running: bool)
        ensures
            running == self@,
    {
        self.running
    }

    /// Begins capture unless it has begun before. The exclusive borrow makes
    /// the test and the update one step.
    pub fn begin_capture(&mut self) -> (outcome: Result<(), CaptureError>)
        ensures
            outcome == begin_outcome(old(self)@),
            final(self)@,
            old(self)@ ==> *final(self) == *old(self),
    {
        if self.running {
            return Err(CaptureError::AlreadyRunning);
        }
        self.running = true;
        Ok(())
    }
}

/// Of any number of requests in succession only the first can succeed: each
/// later one is refused as `AlreadyRunning`, whatever the first returned. On a
/// process in which capture has not begun, the first does succeed.
pub proof fn lemma_only_first_begin_succeeds(running: bool, calls: nat)
    ensures
        begin_outcomes(running, calls).len() == calls,
        calls > 0 ==> begin_outcomes(running, calls)[0] == begin_outcome(running),
        calls > 0 && !running ==> begin_outcomes(running, calls)[0] == Ok::<(), CaptureError>(()),
        forall|i: int|
            1 <= i < calls ==> #[trigger] begin_outcomes(running, calls)[i] == Err::<
                (),
                CaptureError,
            >(CaptureError::AlreadyRunning),
    decreases calls,
{
    if calls > 0 {
        let rest = begin_outcomes(true, (calls - 1) as nat);
        lemma_only_first_begin_succeeds(true, (calls - 1) as nat);
        assert forall|i: int| 1 <= i < calls implies #[trigger] begin_outcomes(running, calls)[i]
            == Err::<(), CaptureError>(CaptureError::AlreadyRunning) by {
            assert(begin_outcomes(running, calls)[i] == rest[i - 1]);
            if i - 1 >= 1 {
            } else {
                assert(rest[0] == begin_outcome(true));
            }
        }
    }
}

} // verus!
