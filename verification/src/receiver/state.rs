use vstd::prelude::*;
use crate::receiver::error::ReceiveErrorKind;
use crate::stream::StreamCommandType;

verus! {

/// What the device is doing with a stream, as the receive streamer that
/// commands it can tell.
#[derive(Debug, Clone, Copy, PartialEq, Eq, Structural)]
pub enum StreamState {
    /// The device produces no samples.
    Idle,
    /// The device produces samples until it is told to stop.
    Continuous,
    /// The device produces a bounded number of samples: `remaining` are
    /// still to come. With `follow_on` set it expects another command
    /// before they run out.
    Bounded { remaining: u64, follow_on: bool },
}

impl StreamState {
    /// The state that a command leads to. An idle device starts a
    /// continuous or a bounded stream, and a continuous stream is stopped;
    /// no other command is defined in any other state.
    pub open spec fn spec_after_command(self, command: StreamCommandType) -> Option<StreamState> {
        match (self, command) {
            (StreamState::Idle, StreamCommandType::StartContinuous) => Some(
                StreamState::Continuous,
            ),
            (StreamState::Idle, StreamCommandType::CountAndDone(samples)) => Some(
                StreamState::Bounded { remaining: samples, follow_on: false },
            ),
            (StreamState::Idle, StreamCommandType::CountAndMore(samples)) => Some(
                StreamState::Bounded { remaining: samples, follow_on: true },
            ),
            (StreamState::Continuous, StreamCommandType::StopContinuous) => Some(StreamState::Idle),
            _ => None,
        }
    }

    /// The state after the device has produced some samples. A bounded
    /// stream counts them down, and goes idle when none remain, unless it
    /// expects another command: then it stays, with nothing remaining. An
    /// idle device and a continuous stream stay as they are.
    pub open spec fn spec_after_samples(self, produced: u64) -> StreamState {
        match self {
            StreamState::Bounded { remaining, follow_on } => if produced < remaining {
                StreamState::Bounded { remaining: (remaining - produced) as u64, follow_on }
            } else if follow_on {
                StreamState::Bounded { remaining: 0, follow_on: true }
            } else {
                StreamState::Idle
            },
            _ => self,
        }
    }

    /// The error that the next receive call reports because of this state:
    /// `BrokenChain` where a bounded stream has nothing remaining and still
    /// expects another command, and none otherwise.
    pub open spec fn spec_next_receive_error(self) -> Option<ReceiveErrorKind> {
        match self {
            StreamState::Bounded { remaining, follow_on } if remaining == 0 && follow_on => Some(
                ReceiveErrorKind::BrokenChain,
            ),
            _ => None,
        }
    }

    /// Returns the state that a command leads to, or nothing where the
    /// command is not defined in this state.
    pub fn after_command(self, command: StreamCommandType) -> (next: Option<StreamState>)
        ensures
            next == self.spec_after_command(command),
    {
        match self {
            StreamState::Idle => match command {
                StreamCommandType::StartContinuous => Some(StreamState::Continuous),
                StreamCommandType::StopContinuous => None,
                StreamCommandType::CountAndDone(samples) => Some(
                    StreamState::Bounded { remaining: samples, follow_on: false },
                ),
                StreamCommandType::CountAndMore(samples) => Some(
                    StreamState::Bounded { remaining: samples, follow_on: true },
                ),
            },
            StreamState::Continuous => match command {
                StreamCommandType::StopContinuous => Some(StreamState::Idle),
                _ => None,
            },
            StreamState::Bounded { .. } => None,
        }
    }

    /// Returns the state after the device has produced some samples.
    pub fn after_samples(self, produced: u64) -> (next: StreamState)
        ensures
            next == self.spec_after_samples(produced),
    {
        match self {
            StreamState::Bounded { remaining, follow_on } => {
                if produced < remaining {
                    StreamState::Bounded { remaining: remaining - produced, follow_on }
                } else if follow_on {
                    StreamState::Bounded { remaining: 0, follow_on: true }
                } else {
                    StreamState::Idle
                }
            },
            _ => self,
        }
    }

    /// Returns the error that the next receive call reports because of this
    /// state, if any.
    pub fn next_receive_error(self) -> (error: Option<ReceiveErrorKind>)
        ensures
            error == self.spec_next_receive_error(),
    {
        match self {
            StreamState::Bounded { remaining, follow_on } => {
                if remaining == 0 && follow_on {
                    Some(ReceiveErrorKind::BrokenChain)
                } else {
                    None
                }
            },
            _ => None,
        }
    }
}

/// A stream of a number of samples that is commanded on an idle device and
/// expects no other command is idle again once, in any number of steps that
/// each stay within what remains, that number has been produced.
pub proof fn lemma_bounded_stream_ends(samples: u64, first: u64)
    requires
        first <= samples,
    ensures
        StreamState::Idle.spec_after_command(StreamCommandType::CountAndDone(samples)) == Some(
            StreamState::Bounded { remaining: samples, follow_on: false },
        ),
        (StreamState::Bounded { remaining: samples, follow_on: false }).spec_after_samples(samples)
            == StreamState::Idle,
        (StreamState::Bounded { remaining: samples, follow_on: false }).spec_after_samples(
            first,
        ).spec_after_samples((samples - first) as u64) == StreamState::Idle,
{
}

/// A stream of a number of samples that expects another command, and gets
/// none before that number has been produced, makes the next receive call
/// report `BrokenChain`.
pub proof fn lemma_chain_breaks(samples: u64)
    ensures
        StreamState::Idle.spec_after_command(StreamCommandType::CountAndMore(samples)) == Some(
            StreamState::Bounded { remaining: samples, follow_on: true },
        ),
        (StreamState::Bounded { remaining: samples, follow_on: true }).spec_after_samples(
            samples,
        ).spec_next_receive_error() == Some(ReceiveErrorKind::BrokenChain),
{
}

} // verus!
