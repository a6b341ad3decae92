//! The decisions of the hook runner: whether capture may start, where the
//! blocking hook loop runs, what becomes of each notification, and how the end
//! of the loop is reported.
//!
//! The loop itself, the thread it runs on and the sinks are the caller's. The
//! caller performs what these functions decide.

use crate::capture::{begin_outcome, CaptureError, CaptureState};
use crate::device::{normalize, DeviceEvent, RawNotification};
use crate::wire::{encode, frame_text};
use vstd::prelude::*;
use vstd::string::*;

verus! {

/// The platforms that the hook runner tells apart.
#[derive(Debug, Clone, Copy, PartialEq, Eq, Structural)]
pub enum Platform {
    /// The hook works only on the thread that asked for the capture.
    MacOs,
    /// The hook works on any thread.
    Other,
}

/// Where the blocking hook loop runs.
#[derive(Debug, Clone, Copy, PartialEq, Eq, Structural)]
pub enum ExecutionModel {
    /// On the task that asked for the capture, which does not return to its
    /// caller while the loop runs.
    Foreground,
    /// On a thread of its own, so that the request returns at once.
    Background,
}

impl Platform {
    /// The execution model that the platform calls for.
    pub open spec fn execution_model(self) -> ExecutionModel {
        match self {
            Platform::MacOs => ExecutionModel::Foreground,
            Platform::Other => ExecutionModel::Background,
        }
    }
}

/// Decides on a request to start capture. Refuses it with `AlreadyRunning`,
/// and does nothing more, where capture has begun before. Otherwise marks
/// capture as begun and says where the hook loop is to run.
pub fn start_listening(state: &mut CaptureState, platform: Platform) -> (plan: Result<
    ExecutionModel,
    CaptureError,
>)
    ensures
        plan == (match begin_outcome(old(state)@) {
            Ok(_) => Ok::<ExecutionModel, CaptureError>(platform.execution_model()),
            Err(error) => Err(error),
        }),
        final(state)@,
        old(state)@ ==> *final(state) == *old(state),
{
    match state.begin_capture() {
        Err(error) => Err(error),
        Ok(()) => match platform {
            Platform::MacOs => Ok(ExecutionModel::Foreground),
            Platform::Other => Ok(ExecutionModel::Background),
        },
    }
}

/// How the end of the hook loop is made known.
pub enum HookReport {
    /// The request to start capture is still waiting: this is what it
    /// returns.
    Returned(Result<(), CaptureError>),
    /// The request has returned long ago: only a diagnostic line can be
    /// written, if there is anything to say.
    Logged(Option<String>),
}

/// The diagnostic line for a hook that could not be installed.
pub open spec fn diagnostic_text(detail: Seq<char>) -> Seq<char> {
    "Device listening error: "@ + detail
}

/// Decides how the end of the hook loop is reported. `outcome` is what the
/// loop ended with: `Err` holds the platform's description of why the hook
/// could not be installed.
///
/// In the foreground the failure goes back to the caller that is still
/// waiting. In the background the caller is gone, and the failure can only be
/// logged.
pub fn report_hook_end(model: ExecutionModel, outcome: Result<(), String>) -> (report: HookReport)
    ensures
        match (model, outcome) {
            (ExecutionModel::Foreground, Ok(_)) => report == HookReport::Returned(Ok(())),
            (ExecutionModel::Foreground, Err(detail)) => report == HookReport::Returned(
                Err(CaptureError::HookRegistration(detail)),
            ),
            (ExecutionModel::Background, Ok(_)) => report == HookReport::Logged(None),
            (ExecutionModel::Background, Err(detail)) => report matches HookReport::Logged(
                Some(line),
            ) && line@ == diagnostic_text(detail@),
        },
{
    match model {
        ExecutionModel::Foreground => match outcome {
            Ok(()) => HookReport::Returned(Ok(())),
            Err(detail) => HookReport::Returned(Err(CaptureError::HookRegistration(detail))),
        },
        ExecutionModel::Background => match outcome {
            Ok(()) => HookReport::Logged(None),
            Err(detail) => {
                let mut line = "Device listening error: ".to_owned();
                line.append(detail.as_str());
                HookReport::Logged(Some(line))
            },
        },
    }
}

/// The two kinds of consumer.
#[derive(Debug, Clone, Copy, PartialEq, Eq, Structural)]
pub enum Sink {
    /// A consumer in this process, which takes the event as it is.
    Channel,
    /// The peer on the network, which takes the event as a text frame.
    Network,
}

impl Sink {
    /// The sink of a capture: the channel where the request brought one, the
    /// network where it did not.
    pub fn select(channel_given: bool) -> (sink: Sink)
        ensures
            sink == (if channel_given {
                Sink::Channel
            } else {
                Sink::Network
            }),
    {
        if channel_given {
            Sink::Channel
        } else {
            Sink::Network
        }
    }
}

/// What is to be done with one notification.
pub enum Delivery {
    /// The notification stands for no event: nothing is delivered.
    Nothing,
    /// Hand the event to the consumer in this process, now.
    Handoff(DeviceEvent),
    /// Post a send of this text, as one frame, and do not wait for it.
    Post(String),
}

/// Decides what becomes of one notification: it is normalized, and the event,
/// if there is one, goes to the sink in the form that the sink takes.
pub fn dispatch(sink: Sink, raw: RawNotification) -> (delivery: Delivery)
    ensures
        delivery is Nothing <==> !raw.is_recognized(),
        match raw.normalized() {
            None => delivery is Nothing,
            Some(event) => match sink {
                Sink::Channel => delivery matches Delivery::Handoff(handed) && handed@ == event,
                Sink::Network => delivery matches Delivery::Post(frame) && frame@ == frame_text(
                    event,
                ),
            },
        },
{
    match normalize(raw) {
        None => Delivery::Nothing,
        Some(event) => match sink {
            Sink::Channel => Delivery::Handoff(event),
            Sink::Network => Delivery::Post(encode(&event)),
        },
    }
}

} // verus!
