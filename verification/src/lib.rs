//!
//! # `uhd`: the verified core of bindings to the USRP Hardware Driver library
//!
//! This crate holds what a binding to the USRP Hardware Driver decides and
//! computes, apart from the native calls themselves: the meaning of native
//! status and error codes, the protocol for copying strings out of the native
//! library, the native forms of stream arguments, stream commands, tune
//! requests and times, the checks on sample buffers, and the values that the
//! native library reports. Every function is verified against its contract.
//!
//! Floating-point numbers are carried by their bits (see [`Double`]); the
//! crate does no arithmetic on them.
//!
use vstd::prelude::*;

pub mod c_string;
pub mod double;
pub mod error;
pub mod motherboard_eeprom;
pub mod range;
pub mod receiver;
pub mod stream;
pub mod string_vector;
pub mod time_spec;
pub mod transmitter;
pub mod tune_request;
pub mod tune_result;
pub mod utils;

// Re-export many public items at the root
pub use c_string::CString;
pub use double::Double;
pub use error::{check_status, Error, ErrorKind, FromUhdStatus};
pub use receiver::error::{ReceiveError, ReceiveErrorKind};
pub use receiver::info::ReceiveInfo;
pub use receiver::metadata::ReceiveMetadata;
pub use receiver::state::StreamState;
pub use receiver::streamer::ReceiveStreamer;
pub use stream::{
    Item, StreamArgs, StreamArgsBuilder, StreamArgsC, StreamCommand, StreamCommandC,
    StreamCommandType, StreamTime,
};
pub use time_spec::{NativeTime, TimeSpec};
pub use transmitter::info::TransmitInfo;
pub use transmitter::metadata::TransmitMetadata;
pub use transmitter::streamer::TransmitStreamer;
pub use tune_request::{TuneRequest, TuneRequestC, TuneRequestPolicy};
pub use tune_result::TuneResult;
pub use utils::{alloc_boxed_slice, copy_string};
