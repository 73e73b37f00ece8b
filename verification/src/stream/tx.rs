//! The transmit side of a stream.

use crate::error::{Result, UhdError};
use crate::sample::Sample;
use core::marker::PhantomData;
use vstd::prelude::*;

verus! {

/// An open transmit stream of samples of type `T`.
pub struct TxStream<T: Sample> {
    samples_per_buffer: usize,
    channels: usize,
    phantom: PhantomData<T>,
}

/// The lengths of the slices of `data`.
pub open spec fn slice_lengths<T>(data: Seq<&[T]>) -> Seq<nat> {
    Seq::new(data.len(), |c: int| data[c]@.len())
}

/// All entries of `lengths` are equal.
pub open spec fn all_equal(lengths: Seq<nat>) -> bool {
    forall|c: int| 0 <= c < lengths.len() ==> #[trigger] lengths[c] == lengths[0]
}

impl<T: Sample> TxStream<T> {
    /// The number of channels of the stream.
    pub closed spec fn spec_channels(&self) -> usize {
        self.channels
    }

    /// The largest number of samples per channel that one packet carries.
    pub closed spec fn spec_max_samples(&self) -> usize {
        self.samples_per_buffer
    }

    /// Records what the driver reported of a stream that was just opened.
    pub fn new(channels: usize, samples_per_buffer: usize) -> (stream: Self)
        ensures
            stream.spec_channels() == channels,
            stream.spec_max_samples() == samples_per_buffer,
    {
        TxStream { samples_per_buffer, channels, phantom: PhantomData }
    }

    /// The largest number of samples per channel that one packet carries.
    pub fn max_samples_per_channel(&self) -> (n: usize)
        ensures
            n == self.spec_max_samples(),
    {
        self.samples_per_buffer
    }

    /// The largest number of samples per channel that one packet carries.
    pub fn max_samples_per_buffer(&self) -> (n: usize)
        ensures
            n == self.spec_max_samples(),
    {
        self.samples_per_buffer
    }

    /// The number of channels of the stream.
    pub fn channels(&self) -> (n: usize)
        ensures
            n == self.spec_channels(),
    {
        self.channels
    }

    /// Checks the slices of a send call, one slice for each channel.
    ///
    /// Returns the number of samples per channel to hand to the driver, or
    /// the error `Index` if there is no slice or the slices differ in
    /// length. On an error no call to the driver is to be made.
    pub fn check_slices(&self, data: &[&[T]]) -> (res: Result<usize>)
        ensures
            res is Ok <==> data@.len() > 0 && all_equal(slice_lengths(data@)),
            res is Ok ==> res->Ok_0 == data@[0]@.len(),
            res is Err ==> res->Err_0 == UhdError::Index,
    {
        if data.len() == 0 {
            return Err(UhdError::Index);
        }
        let samples = data[0].len();
        let ghost lengths = slice_lengths(data@);
        let mut c: usize = 1;
        while c < data.len()
            invariant
                1 <= c <= data.len(),
                samples == data@[0]@.len(),
                lengths == slice_lengths(data@),
                forall|k: int| 0 <= k < c ==> #[trigger] lengths[k] == lengths[0],
            decreases data.len() - c,
        {
            if data[c].len() != samples {
                assert(lengths[c as int] != lengths[0]);
                return Err(UhdError::Index);
            }
            c += 1;
        }
        Ok(samples)
    }
}

} // verus!
