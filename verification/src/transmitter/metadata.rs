use vstd::prelude::*;
use crate::time_spec::{NativeTime, TimeSpec};

verus! {

/// Data about a transmit operation
#[derive(Debug)]
pub struct TransmitMetadata {
    has_time_spec: bool,
    time: TimeSpec,
    start_of_burst: bool,
    end_of_burst: bool,
    /// Number of samples transmitted
    samples: usize,
}

/// What transmit metadata hold.
pub struct TransmitMetadataView {
    /// The time of the samples, where the metadata carry one.
    pub time_spec: Option<TimeSpec>,
    pub start_of_burst: bool,
    pub end_of_burst: bool,
    pub samples: usize,
}

impl View for TransmitMetadata {
    type V = TransmitMetadataView;

    closed spec fn view(&self) -> TransmitMetadataView {
        TransmitMetadataView {
            time_spec: if self.has_time_spec {
                Some(self.time)
            } else {
                None
            },
            start_of_burst: self.start_of_burst,
            end_of_burst: self.end_of_burst,
            samples: self.samples,
        }
    }
}

impl TransmitMetadata {
    /// Metadata as they are before any transmit operation: no time, no flag
    /// set, no samples.
    pub fn new() -> (metadata: Self)
        ensures
            metadata@.time_spec is None,
            !metadata@.start_of_burst,
            !metadata@.end_of_burst,
            metadata@.samples == 0,
    {
        TransmitMetadata {
            has_time_spec: false,
            time: TimeSpec::default(),
            start_of_burst: false,
            end_of_burst: false,
            samples: 0,
        }
    }

    /// Metadata with what the native library holds for a transmit
    /// operation. The time counts only where `has_time_spec` is set. The
    /// number of samples starts at zero.
    pub fn from_native(
        has_time_spec: bool,
        time: NativeTime,
        start_of_burst: bool,
        end_of_burst: bool,
    ) -> (metadata: Self)
        ensures
            metadata@.time_spec == (if has_time_spec {
                Some(time.time())
            } else {
                None
            }),
            metadata@.start_of_burst == start_of_burst,
            metadata@.end_of_burst == end_of_burst,
            metadata@.samples == 0,
    {
        TransmitMetadata {
            has_time_spec,
            time: TimeSpec::from_native(time),
            start_of_burst,
            end_of_burst,
            samples: 0,
        }
    }

    /// Returns the timestamp of the transmitted samples, according to the USRP's
    /// internal clock
    pub fn time_spec(&self) -> (time: Option<TimeSpec>)
        ensures
            time == self@.time_spec,
    {
        if self.has_time_spec {
            Some(self.time)
        } else {
            None
        }
    }

    /// Returns true if the transmitted samples are at the beginning of a burst
    pub fn start_of_burst(&self) -> (value: bool)
        ensures
            value == self@.start_of_burst,
    {
        self.start_of_burst
    }

    /// Returns true if the transmitted samples are at the end of a burst
    pub fn end_of_burst(&self) -> (value: bool)
        ensures
            value == self@.end_of_burst,
    {
        self.end_of_burst
    }

    /// Returns the number of samples transmitted
    pub fn samples(&self) -> (samples: usize)
        ensures
            samples == self@.samples,
    {
        self.samples
    }

    /// Sets the number of samples transmitted
    pub fn set_samples(&mut self, samples: usize)
        ensures
            final(self)@ == (TransmitMetadataView { samples, ..old(self)@ }),
    {
        self.samples = samples
    }
}

impl Default for TransmitMetadata {
    fn default() -> (metadata: Self)
        ensures
            metadata@.time_spec is None,
            !metadata@.start_of_burst,
            !metadata@.end_of_burst,
            metadata@.samples == 0,
    {
        TransmitMetadata::new()
    }
}

} // verus!
