use core::marker::PhantomData;
use vstd::prelude::*;
use crate::error::{check_status, kind_of_status, Error, UHD_ERROR_NONE};
use crate::transmitter::metadata::{TransmitMetadata, TransmitMetadataView};
use crate::utils::{check_equal_buffer_lengths, equal_lengths, shared_length};

verus! {

/// A streamer used to transmit samples from a USRP
///
/// The type parameter I is the type of sample that this streamer transmits.
///
/// This is the part of the streamer that needs no native handle: the number
/// of channels, and the addresses of the buffers as the native send takes
/// them, kept from one call to the next so that no call allocates.
#[derive(Debug)]
pub struct TransmitStreamer<I> {
    channels: usize,
    buffer_pointers: Vec<usize>,
    item_phantom: PhantomData<I>,
}

impl<I> TransmitStreamer<I> {
    /// If the buffer addresses are not empty, there is one for each channel.
    #[verifier::type_invariant]
    closed spec fn wf(self) -> bool {
        self.buffer_pointers@.len() == 0 || self.buffer_pointers@.len() == self.channels
    }

    /// The number of channels that this streamer is associated with.
    pub closed spec fn spec_num_channels(self) -> usize {
        self.channels
    }

    /// The buffer addresses kept by this streamer.
    pub closed spec fn spec_buffer_pointers(self) -> Seq<usize> {
        self.buffer_pointers@
    }

    /// Creates the streamer for the given number of channels, with no buffer
    /// addresses yet.
    pub fn new(num_channels: usize) -> (streamer: Self)
        ensures
            streamer.spec_num_channels() == num_channels,
            streamer.spec_buffer_pointers().len() == 0,
    {
        TransmitStreamer {
            channels: num_channels,
            buffer_pointers: Vec::new(),
            item_phantom: PhantomData,
        }
    }

    /// Returns the number of channels that this streamer is associated with
    pub fn num_channels(&self) -> (channels: usize)
        ensures
            channels == self.spec_num_channels(),
    {
        self.channels
    }

    /// Returns the buffer addresses that the last `prepare` stored. There
    /// are none, or one for each channel of this streamer.
    pub fn buffer_pointers(&self) -> (pointers: &[usize])
        ensures
            pointers@ == self.spec_buffer_pointers(),
            pointers@.len() == 0 || pointers@.len() == self.spec_num_channels(),
    {
        proof {
            use_type_invariant(self);
        }
        self.buffer_pointers.as_slice()
    }

    /// Gets a transmit call ready: stores the address of each buffer, as
    /// `address_of` gives it, in the order of the buffers, and returns the
    /// length that the buffers share.
    ///
    /// buffers: One buffer per channel containing samples to transmit. There
    /// must be as many as this streamer has channels, and all must have the
    /// same length.
    pub fn prepare<A>(&mut self, buffers: &[&[I]], address_of: A) -> (buffer_length: usize) where
        A: Fn(&[I]) -> usize,

        requires
            buffers@.len() == old(self).spec_num_channels(),
            equal_lengths(buffers@),
            forall|buffer: &[I]| call_requires(address_of, (buffer,)),
        ensures
            final(self).spec_num_channels() == old(self).spec_num_channels(),
            final(self).spec_buffer_pointers().len() == buffers@.len(),
            forall|i: int|
                0 <= i < buffers@.len() ==> call_ensures(
                    address_of,
                    (#[trigger] buffers@[i],),
                    final(self).spec_buffer_pointers()[i],
                ),
            buffer_length == shared_length(buffers@),
    {
        proof {
            use_type_invariant(&*self);
        }
        let channels: usize = self.channels;
        // Check that all buffers have the same length
        let buffer_length = check_equal_buffer_lengths(buffers);
        // Copy buffer addresses into C-compatible form
        let mut pointers: Vec<usize> = Vec::new();
        core::mem::swap(&mut pointers, &mut self.buffer_pointers);
        pointers.clear();
        let mut i: usize = 0;
        while i < buffers.len()
            invariant
                0 <= i <= buffers@.len(),
                pointers@.len() == i,
                forall|buffer: &[I]| call_requires(address_of, (buffer,)),
                forall|j: int|
                    0 <= j < i ==> call_ensures(
                        address_of,
                        (#[trigger] buffers@[j],),
                        pointers@[j],
                    ),
            decreases buffers@.len() - i,
        {
            let address: usize = address_of(buffers[i]);
            pointers.push(address);
            i += 1;
        }
        self.buffer_pointers = pointers;
        buffer_length
    }

    /// Ends a transmit call: an error where the native send returned a
    /// failing status, else the metadata with the number of samples that
    /// it reported as sent.
    pub fn finish(status: u32, metadata: TransmitMetadata, samples: usize) -> (result: Result<
        TransmitMetadata,
        Error,
    >)
        ensures
            result is Ok <==> status == UHD_ERROR_NONE,
            result is Ok ==> result->Ok_0@ == (TransmitMetadataView { samples, ..metadata@ }),
            result is Err ==> result->Err_0.spec_kind() == kind_of_status(status),
            result is Err ==> result->Err_0.spec_text() is None,
    {
        check_status(status)?;
        let mut metadata = metadata;
        metadata.set_samples(samples);
        Ok(metadata)
    }
}

} // verus!
