//! The order in which capture devices are tried.
//!
//! A device chosen by hand comes first, then the input that the system is
//! using, then the backend's default. A name that cannot be resolved moves
//! the choice one step down this chain; a device that was resolved and then
//! fails to open ends it. The caller makes each attempt and reports how it
//! went.

use crate::stream::StreamError;
use vstd::prelude::*;

verus! {

/// One way of choosing the capture device.
#[derive(Clone, Copy, Debug, PartialEq, Eq, Structural)]
pub enum Attempt {
    /// The device whose name the user configured.
    Manual,
    /// The device whose name came with the request.
    Requested,
    /// The input that the mixer reports as running.
    SystemActive,
    /// The capture backend's default input.
    BackendDefault,
}

/// How an attempt went.
#[derive(Clone, Copy, Debug, PartialEq, Eq, Structural)]
pub enum Outcome {
    /// The device was resolved and its stream is open.
    Started,
    /// The name did not lead to a device.
    Unresolved,
    /// The mixer reports no running input, so there was no name to resolve.
    NoActiveDevice,
    /// The device was resolved, but the backend did not open it.
    OpenFailed,
    /// The capture subsystem could not be initialized.
    BackendUnavailable,
}

/// What follows an attempt.
#[derive(Clone, Copy, Debug, PartialEq, Eq, Structural)]
pub enum Verdict {
    /// A stream is running. With `remember` the name that led to it becomes
    /// the configured device.
    Done { remember: bool },
    /// Make the next attempt. With `notice` the user is first told that the
    /// device could not be retrieved.
    Fallback { next: Attempt, notice: bool },
    /// Give up with this error; whatever ran before is left alone.
    Failed(StreamError),
}

/// The place of an attempt in the chain.
pub open spec fn rank(attempt: Attempt) -> int {
    match attempt {
        Attempt::Manual => 0,
        Attempt::Requested => 1,
        Attempt::SystemActive => 2,
        Attempt::BackendDefault => 3,
    }
}

/// The attempt that a selection begins with.
pub open spec fn opening(requested: bool, manual: bool, configured: Seq<char>) -> Attempt {
    if requested {
        Attempt::Requested
    } else if manual && configured.len() > 0 {
        Attempt::Manual
    } else {
        Attempt::SystemActive
    }
}

/// What follows the attempt with the given outcome.
pub open spec fn verdict(attempt: Attempt, outcome: Outcome) -> Verdict {
    match outcome {
        Outcome::BackendUnavailable => Verdict::Failed(StreamError::BackendUnavailable),
        Outcome::OpenFailed => Verdict::Failed(StreamError::StreamOpenFailed),
        Outcome::Started => Verdict::Done {
            remember: attempt == Attempt::Requested || attempt == Attempt::SystemActive,
        },
        Outcome::Unresolved | Outcome::NoActiveDevice => match attempt {
            Attempt::Manual => Verdict::Fallback {
                next: Attempt::SystemActive,
                notice: outcome == Outcome::Unresolved,
            },
            Attempt::Requested | Attempt::SystemActive => Verdict::Fallback {
                next: Attempt::BackendDefault,
                notice: outcome == Outcome::Unresolved,
            },
            Attempt::BackendDefault => Verdict::Failed(StreamError::DeviceNotFound),
        },
    }
}

/// The first attempt when the pipeline is set up: the configured device if
/// manual selection is on and a name is configured, else the input that
/// the system is using.
pub fn setup(manual: bool, manual_device_name: &str) -> (first: Attempt)
    ensures
        first == opening(false, manual, manual_device_name@),
{
    if manual && !manual_device_name.is_empty() {
        Attempt::Manual
    } else {
        Attempt::SystemActive
    }
}

/// The first attempt when the stream is switched. A request that names a
/// device is tried under that name; one that names none begins as the
/// setup does.
pub fn switch_stream(requested: bool, manual: bool, manual_device_name: &str) -> (first: Attempt)
    ensures
        first == opening(requested, manual, manual_device_name@),
{
    if requested {
        Attempt::Requested
    } else {
        setup(manual, manual_device_name)
    }
}

/// Decides what follows an attempt.
///
/// An open stream ends the selection; the name is remembered if it came
/// with the request or from the mixer. A failure of the backend or of the
/// opening ends it with the matching error. A name that was not resolved
/// moves on: from the configured device to the system's input, from a
/// requested or the system's input to the backend's default, and from
/// there to `DeviceNotFound`. The user is told of it unless the mixer
/// simply had no running input.
pub fn after_attempt(attempt: Attempt, outcome: Outcome) -> (next: Verdict)
    ensures
        next == verdict(attempt, outcome),
{
    match outcome {
        Outcome::BackendUnavailable => Verdict::Failed(StreamError::BackendUnavailable),
        Outcome::OpenFailed => Verdict::Failed(StreamError::StreamOpenFailed),
        Outcome::Started => match attempt {
            Attempt::Requested | Attempt::SystemActive => Verdict::Done { remember: true },
            _ => Verdict::Done { remember: false },
        },
        _ => {
            let notice = match outcome {
                Outcome::Unresolved => true,
                _ => false,
            };
            match attempt {
                Attempt::Manual => Verdict::Fallback { next: Attempt::SystemActive, notice },
                Attempt::BackendDefault => Verdict::Failed(StreamError::DeviceNotFound),
                _ => Verdict::Fallback { next: Attempt::BackendDefault, notice },
            }
        },
    }
}

/// Every fallback leads further down the chain, and the backend's default
/// has none. A selection therefore ends after three attempts at most.
pub proof fn lemma_fallback_descends(attempt: Attempt, outcome: Outcome)
    ensures
        match verdict(attempt, outcome) {
            Verdict::Fallback { next, notice } => rank(attempt) < rank(next) && attempt
                != Attempt::BackendDefault,
            _ => true,
        },
        outcome == Outcome::Started <==> verdict(attempt, outcome) is Done,
{
}

} // verus!
