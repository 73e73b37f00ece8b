//! The receive side of a stream: what is known of it once it is open, and
//! what is checked around each receive call.

use crate::buffer::SampleBuffer;
use crate::error::{check_status, Result, UhdError, UHD_ERROR_NONE};
use crate::sample::Sample;
use crate::stream::command::{RxStartCommand, StreamCommand};
use core::marker::PhantomData;
use vstd::prelude::*;

verus! {

/// An open receive stream of samples of type `T`.
///
/// The channel count and the largest number of samples that one packet
/// carries are read from the driver once, when the stream is opened, and do
/// not change while it is open.
pub struct RxStream<T: Sample> {
    samples_per_buffer: usize,
    channels: usize,
    phantom: PhantomData<T>,
}

impl<T: Sample> RxStream<T> {
    /// The number of channels of the stream.
    pub closed spec fn spec_channels(&self) -> usize {
        self.channels
    }

    /// The largest number of samples per channel that one packet carries.
    pub closed spec fn spec_max_samples(&self) -> usize {
        self.samples_per_buffer
    }

    /// Records what the driver reported of a stream that was just opened.
    pub fn new(channels: usize, samples_per_buffer: usize) -> (stream: Self)
        ensures
            stream.spec_channels() == channels,
            stream.spec_max_samples() == samples_per_buffer,
    {
        RxStream { samples_per_buffer, channels, phantom: PhantomData }
    }

    /// The largest number of samples per channel that one packet carries.
    pub fn max_samples_per_channel(&self) -> (n: usize)
        ensures
            n == self.spec_max_samples(),
    {
        self.samples_per_buffer
    }

    /// The largest number of samples per channel that one packet carries.
    pub fn max_samples_per_buffer(&self) -> (n: usize)
        ensures
            n == self.spec_max_samples(),
    {
        self.samples_per_buffer
    }

    /// The number of channels of the stream.
    pub fn channels(&self) -> (n: usize)
        ensures
            n == self.spec_channels(),
    {
        self.channels
    }

    /// A builder for the command that starts the stream.
    pub fn start_command(&self) -> (cmd: RxStartCommand)
        ensures
            cmd.spec_at_time() is None,
            cmd.spec_limit() is None,
    {
        RxStartCommand::new()
    }

    /// The command that stops the stream. Sending it to a stream that is
    /// not running does no harm.
    pub fn stop_now(&self) -> (cmd: StreamCommand)
        ensures
            cmd == StreamCommand::spec_stop(),
    {
        StreamCommand::stop()
    }

    /// Checks a buffer before samples are received into it.
    ///
    /// Returns the number of samples per channel to ask the driver for, or
    /// the error `Index` if the buffer does not have as many channels as the
    /// stream. On an error no call to the driver is to be made.
    pub fn check_buffer<B: SampleBuffer<T> + ?Sized>(&self, buff: &B) -> (res: Result<usize>)
        requires
            buff.buffer_wf(),
        ensures
            res is Ok <==> buff.spec_channels() == self.spec_channels(),
            res is Ok ==> res->Ok_0 == buff.spec_samples(),
            res is Err ==> res->Err_0 == UhdError::Index,
    {
        if buff.channels() != self.channels {
            return Err(UhdError::Index);
        }
        Ok(buff.samples())
    }
}

/// Turns what a transfer call of the driver reported into the result of the
/// transfer.
///
/// `requested` is the number of samples per channel that the call was made
/// for, `count` the number that the driver says it moved. Returns `count`
/// if the status is the success code and `count` is not above `requested`.
/// Returns the translated error for any other status, and the error
/// `Unknown` for a count that no transfer of `requested` samples can have.
///
/// A count of zero is a result like any other: a receive call that timed out
/// reports success, no samples, and the timeout in its metadata.
pub fn transfer_result(status: u32, count: usize, requested: usize) -> (res: Result<usize>)
    ensures
        res is Ok <==> status == UHD_ERROR_NONE && count <= requested,
        res is Ok ==> res->Ok_0 == count,
        res is Err && status != UHD_ERROR_NONE ==> UhdError::spec_from_sys(status) == Some(
            res->Err_0,
        ),
        res is Err && status == UHD_ERROR_NONE ==> res->Err_0 == UhdError::Unknown,
{
    match check_status(status) {
        Ok(()) => if count <= requested {
            Ok(count)
        } else {
            Err(UhdError::Unknown)
        },
        Err(kind) => Err(kind),
    }
}

} // verus!
