use vstd::prelude::*;
use crate::error::text_view;
use crate::receiver::error::{ReceiveError, ReceiveErrorKind};
use crate::time_spec::{NativeTime, TimeSpec};

verus! {

/// Native receive error code: no error.
pub const UHD_RX_METADATA_ERROR_CODE_NONE: u32 = 0x0;

/// Native receive error code: no packet received.
pub const UHD_RX_METADATA_ERROR_CODE_TIMEOUT: u32 = 0x1;

/// Native receive error code: a stream command was issued in the past.
pub const UHD_RX_METADATA_ERROR_CODE_LATE_COMMAND: u32 = 0x2;

/// Native receive error code: expected another stream command.
pub const UHD_RX_METADATA_ERROR_CODE_BROKEN_CHAIN: u32 = 0x4;

/// Native receive error code: an internal receive buffer has filled, or a
/// sequence error occurred.
pub const UHD_RX_METADATA_ERROR_CODE_OVERFLOW: u32 = 0x8;

/// Native receive error code: multi-channel alignment failed.
pub const UHD_RX_METADATA_ERROR_CODE_ALIGNMENT: u32 = 0xC;

/// Native receive error code: the packet could not be parsed.
pub const UHD_RX_METADATA_ERROR_CODE_BAD_PACKET: u32 = 0xF;

/// The kind of receive error that a native error code stands for, with the
/// out-of-sequence flag of the same metadata: an overflow with that flag set
/// is a sequence error. The code for no error stands for none.
pub open spec fn receive_error_kind(code: u32, out_of_sequence: bool) -> Option<ReceiveErrorKind> {
    if code == UHD_RX_METADATA_ERROR_CODE_NONE {
        None
    } else if code == UHD_RX_METADATA_ERROR_CODE_TIMEOUT {
        Some(ReceiveErrorKind::Timeout)
    } else if code == UHD_RX_METADATA_ERROR_CODE_LATE_COMMAND {
        Some(ReceiveErrorKind::LateCommand)
    } else if code == UHD_RX_METADATA_ERROR_CODE_BROKEN_CHAIN {
        Some(ReceiveErrorKind::BrokenChain)
    } else if code == UHD_RX_METADATA_ERROR_CODE_OVERFLOW {
        if out_of_sequence {
            Some(ReceiveErrorKind::OutOfSequence)
        } else {
            Some(ReceiveErrorKind::Overflow)
        }
    } else if code == UHD_RX_METADATA_ERROR_CODE_ALIGNMENT {
        Some(ReceiveErrorKind::Alignment)
    } else if code == UHD_RX_METADATA_ERROR_CODE_BAD_PACKET {
        Some(ReceiveErrorKind::BadPacket)
    } else {
        Some(ReceiveErrorKind::Other)
    }
}

/// Data about a receive operation
#[derive(Debug)]
pub struct ReceiveMetadata {
    has_time_spec: bool,
    time: TimeSpec,
    start_of_burst: bool,
    end_of_burst: bool,
    more_fragments: bool,
    fragment_offset: usize,
    out_of_sequence: bool,
    error_code: u32,
    error_text: Option<String>,
    /// Number of samples received
    samples: usize,
}

/// What receive metadata hold.
pub struct ReceiveMetadataView {
    /// The time of the samples, where the metadata carry one.
    pub time_spec: Option<TimeSpec>,
    pub start_of_burst: bool,
    pub end_of_burst: bool,
    pub more_fragments: bool,
    pub fragment_offset: usize,
    pub out_of_sequence: bool,
    /// The native error code of the receive operation.
    pub error_code: u32,
    /// The text that the native library gave for the error, if it gave one.
    pub error_text: Option<Seq<char>>,
    pub samples: usize,
}

impl ReceiveMetadataView {
    /// The kind of the error that the receive operation reported, if any.
    pub open spec fn error_kind(self) -> Option<ReceiveErrorKind> {
        receive_error_kind(self.error_code, self.out_of_sequence)
    }
}

impl View for ReceiveMetadata {
    type V = ReceiveMetadataView;

    closed spec fn view(&self) -> ReceiveMetadataView {
        ReceiveMetadataView {
            time_spec: if self.has_time_spec {
                Some(self.time)
            } else {
                None
            },
            start_of_burst: self.start_of_burst,
            end_of_burst: self.end_of_burst,
            more_fragments: self.more_fragments,
            fragment_offset: self.fragment_offset,
            out_of_sequence: self.out_of_sequence,
            error_code: self.error_code,
            error_text: text_view(self.error_text),
            samples: self.samples,
        }
    }
}

impl ReceiveMetadata {
    /// Metadata as they are before any receive operation: no time, no flag
    /// set, no error, no samples.
    pub fn new() -> (metadata: Self)
        ensures
            metadata@.time_spec is None,
            !metadata@.start_of_burst,
            !metadata@.end_of_burst,
            !metadata@.more_fragments,
            metadata@.fragment_offset == 0,
            !metadata@.out_of_sequence,
            metadata@.error_code == UHD_RX_METADATA_ERROR_CODE_NONE,
            metadata@.error_text is None,
            metadata@.samples == 0,
    {
        ReceiveMetadata {
            has_time_spec: false,
            time: TimeSpec::default(),
            start_of_burst: false,
            end_of_burst: false,
            more_fragments: false,
            fragment_offset: 0,
            out_of_sequence: false,
            error_code: UHD_RX_METADATA_ERROR_CODE_NONE,
            error_text: None,
            samples: 0,
        }
    }

    /// Metadata with what the native library reported of a receive
    /// operation. The time counts only where `has_time_spec` is set. The
    /// number of samples starts at zero.
    pub fn from_native(
        has_time_spec: bool,
        time: NativeTime,
        start_of_burst: bool,
        end_of_burst: bool,
        more_fragments: bool,
        fragment_offset: usize,
        out_of_sequence: bool,
        error_code: u32,
        error_text: Option<String>,
    ) -> (metadata: Self)
        ensures
            metadata@.time_spec == (if has_time_spec {
                Some(time.time())
            } else {
                None
            }),
            metadata@.start_of_burst == start_of_burst,
            metadata@.end_of_burst == end_of_burst,
            metadata@.more_fragments == more_fragments,
            metadata@.fragment_offset == fragment_offset,
            metadata@.out_of_sequence == out_of_sequence,
            metadata@.error_code == error_code,
            metadata@.error_text == text_view(error_text),
            metadata@.samples == 0,
    {
        ReceiveMetadata {
            has_time_spec,
            time: TimeSpec::from_native(time),
            start_of_burst,
            end_of_burst,
            more_fragments,
            fragment_offset,
            out_of_sequence,
            error_code,
            error_text,
            samples: 0,
        }
    }

    /// Returns the timestamp of the received samples, according to the USRP's
    /// internal clock
    pub fn time_spec(&self) -> (time: Option<TimeSpec>)
        ensures
            time == self@.time_spec,
    {
        if self.has_time_spec {
            Some(self.time)
        } else {
            None
        }
    }

    /// Returns true if the received samples are at the beginning of a burst
    pub fn start_of_burst(&self) -> (value: bool)
        ensures
            value == self@.start_of_burst,
    {
        self.start_of_burst
    }

    /// Returns true if the received samples are at the end of a burst
    pub fn end_of_burst(&self) -> (value: bool)
        ensures
            value == self@.end_of_burst,
    {
        self.end_of_burst
    }

    /// Returns true if the provided receive buffer was not large enough to hold a full packet
    ///
    /// If this is the case, the fragment_offset() function returns the offset from the beginning
    /// of the packet to the first sample received
    pub fn more_fragments(&self) -> (value: bool)
        ensures
            value == self@.more_fragments,
    {
        self.more_fragments
    }

    /// If more_fragments() returned true, this function returns the offset from the beginning
    /// of the packet to the first sample received
    pub fn fragment_offset(&self) -> (value: usize)
        ensures
            value == self@.fragment_offset,
    {
        self.fragment_offset
    }

    /// Returns true if a packet was dropped or received out of order
    pub fn out_of_sequence(&self) -> (value: bool)
        ensures
            value == self@.out_of_sequence,
    {
        self.out_of_sequence
    }

    /// Returns the number of samples received
    pub fn samples(&self) -> (samples: usize)
        ensures
            samples == self@.samples,
    {
        self.samples
    }

    /// Sets the number of samples received
    pub fn set_samples(&mut self, samples: usize)
        ensures
            final(self)@ == (ReceiveMetadataView { samples, ..old(self)@ }),
    {
        self.samples = samples
    }

    /// Returns the error code associated with the receive operation
    pub fn error_code(&self) -> (code: u32)
        ensures
            code == self@.error_code,
    {
        self.error_code
    }

    /// Returns the error associated with the receive operation, if any
    ///
    /// There is none exactly when the native error code is the code for no
    /// error. An overflow is reported as `OutOfSequence` where the
    /// out-of-sequence flag is set. The error carries the text that the
    /// native library gave for it.
    pub fn last_error(&self) -> (error: Option<ReceiveError>)
        ensures
            error is None <==> self@.error_code == UHD_RX_METADATA_ERROR_CODE_NONE,
            error is Some ==> Some(error->0.kind) == self@.error_kind(),
            error is Some ==> error->0.spec_message() == self@.error_text,
    {
        let out_of_sequence = self.out_of_sequence();
        let kind = match self.error_code() {
            UHD_RX_METADATA_ERROR_CODE_TIMEOUT => ReceiveErrorKind::Timeout,
            UHD_RX_METADATA_ERROR_CODE_LATE_COMMAND => ReceiveErrorKind::LateCommand,
            UHD_RX_METADATA_ERROR_CODE_BROKEN_CHAIN => ReceiveErrorKind::BrokenChain,
            UHD_RX_METADATA_ERROR_CODE_OVERFLOW if !out_of_sequence => ReceiveErrorKind::Overflow,
            UHD_RX_METADATA_ERROR_CODE_OVERFLOW if out_of_sequence => {
                ReceiveErrorKind::OutOfSequence
            },
            UHD_RX_METADATA_ERROR_CODE_ALIGNMENT => ReceiveErrorKind::Alignment,
            UHD_RX_METADATA_ERROR_CODE_BAD_PACKET => ReceiveErrorKind::BadPacket,
            UHD_RX_METADATA_ERROR_CODE_NONE => {
                // Not actually an error
                return None;
            },
            _ => {
                // Some other error
                ReceiveErrorKind::Other
            },
        };
        let message = match &self.error_text {
            Some(text) => Some(text.clone()),
            None => None,
        };
        Some(ReceiveError { kind, message })
    }
}

impl Default for ReceiveMetadata {
    fn default() -> (metadata: Self)
        ensures
            metadata@.time_spec is None,
            !metadata@.start_of_burst,
            !metadata@.end_of_burst,
            !metadata@.more_fragments,
            metadata@.fragment_offset == 0,
            !metadata@.out_of_sequence,
            metadata@.error_code == UHD_RX_METADATA_ERROR_CODE_NONE,
            metadata@.error_text is None,
            metadata@.samples == 0,
    {
        ReceiveMetadata::new()
    }
}

/// Of metadata that report the native overflow code, the error is a sequence
/// error exactly when the out-of-sequence flag is set, and an overflow
/// otherwise.
pub proof fn lemma_overflow_is_told_apart(metadata: ReceiveMetadata)
    requires
        metadata@.error_code == UHD_RX_METADATA_ERROR_CODE_OVERFLOW,
    ensures
        metadata@.error_kind() == Some(ReceiveErrorKind::OutOfSequence)
            <==> metadata@.out_of_sequence,
        metadata@.error_kind() == Some(ReceiveErrorKind::Overflow)
            <==> !metadata@.out_of_sequence,
{
}

} // verus!
