use core::marker::PhantomData;
use vstd::prelude::*;
use crate::error::{check_status, kind_of_status, Error, UHD_ERROR_NONE};
use crate::receiver::metadata::{ReceiveMetadata, ReceiveMetadataView};

verus! {

/// True when all the buffers have the same length.
pub open spec fn equal_lengths_mut<I>(buffers: Seq<&mut [I]>) -> bool {
    forall|i: int, j: int|
        0 <= i < buffers.len() && 0 <= j < buffers.len() ==> #[trigger] buffers[i]@.len()
            == #[trigger] buffers[j]@.len()
}

/// The length that the buffers share: that of the first, or 0 where there
/// is no buffer.
pub open spec fn shared_length_mut<I>(buffers: Seq<&mut [I]>) -> nat {
    if buffers.len() == 0 {
        0
    } else {
        buffers[0]@.len()
    }
}

/// A streamer used to receive samples from a USRP
///
/// The type parameter I is the type of sample that this streamer receives.
///
/// This is the part of the streamer that needs no native handle: the number
/// of channels, and what is decided before and after the native receive.
#[derive(Debug)]
pub struct ReceiveStreamer<I> {
    channels: usize,
    item_phantom: PhantomData<I>,
}

impl<I> ReceiveStreamer<I> {
    /// The number of channels that this streamer is associated with.
    pub closed spec fn spec_num_channels(self) -> usize {
        self.channels
    }

    /// Creates the streamer for the given number of channels.
    pub fn new(num_channels: usize) -> (streamer: Self)
        ensures
            streamer.spec_num_channels() == num_channels,
    {
        ReceiveStreamer { channels: num_channels, item_phantom: PhantomData }
    }

    /// Returns the number of channels that this streamer is associated with
    pub fn num_channels(&self) -> (channels: usize)
        ensures
            channels == self.spec_num_channels(),
    {
        self.channels
    }

    /// Tells whether a receive call can take these buffers, and if so, how
    /// many samples each of them holds: there must be one buffer for each
    /// channel of this streamer, and all must have the same length.
    pub fn buffer_length(&self, buffers: &[&mut [I]]) -> (length: Option<usize>)
        ensures
            length is Some <==> buffers@.len() == self.spec_num_channels() && equal_lengths_mut(
                buffers@,
            ),
            length is Some ==> length->0 == shared_length_mut(buffers@),
    {
        if buffers.len() != self.channels {
            return None;
        }
        if buffers.len() == 0 {
            return Some(0);
        }
        let first: usize = buffers[0].len();
        let mut i: usize = 1;
        while i < buffers.len()
            invariant
                1 <= i <= buffers@.len(),
                first == buffers@[0]@.len(),
                forall|j: int| 0 <= j < i ==> #[trigger] buffers@[j]@.len() == first,
            decreases buffers@.len() - i,
        {
            if buffers[i].len() != first {
                return None;
            }
            i += 1;
        }
        Some(first)
    }

    /// Ends a receive call: an error where the native receive returned a
    /// failing status, else the metadata, holding the number of samples
    /// that it reported as written to each buffer, and that number.
    pub fn finish(status: u32, metadata: ReceiveMetadata, samples: usize) -> (result: Result<
        (ReceiveMetadata, usize),
        Error,
    >)
        ensures
            result is Ok <==> status == UHD_ERROR_NONE,
            result is Ok ==> result->Ok_0.0@ == (ReceiveMetadataView { samples, ..metadata@ }),
            result is Ok ==> result->Ok_0.1 == samples,
            result is Err ==> result->Err_0.spec_kind() == kind_of_status(status),
            result is Err ==> result->Err_0.spec_text() is None,
    {
        check_status(status)?;
        let mut metadata = metadata;
        metadata.set_samples(samples);
        Ok((metadata, samples))
    }
}

} // verus!
