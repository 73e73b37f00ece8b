//! Multi-channel sample buffers.
//!
//! A buffer is a rectangle of samples: a number of channels, each holding the
//! same number of samples. Flat sequences list the channels one after
//! another, so sample `s` of channel `c` stands at index `c * samples + s`.

pub mod arraybuffer;
pub mod layout;

pub use arraybuffer::ArrayBuffer;

use vstd::prelude::*;

verus! {

/// A type that can stand for a block of samples of type `S`, laid out as
/// channels of equal length: `buff[channel][sample]`.
pub trait SampleBuffer<S> {
    /// The value is in a state in which its shape can be read.
    spec fn buffer_wf(&self) -> bool;

    /// The number of channels.
    spec fn spec_channels(&self) -> nat;

    /// The number of samples in each channel.
    spec fn spec_samples(&self) -> nat;

    /// The number of channels contained in the sample buffer.
    fn channels(&self) -> (n: usize)
        requires
            self.buffer_wf(),
        ensures
            n == self.spec_channels(),
    ;

    /// The number of samples per channel.
    fn samples(&self) -> (n: usize)
        requires
            self.buffer_wf(),
        ensures
            n == self.spec_samples(),
    ;
}

/// A vector of samples is a buffer of one channel.
impl<S> SampleBuffer<S> for Vec<S> {
    open spec fn buffer_wf(&self) -> bool {
        true
    }

    open spec fn spec_channels(&self) -> nat {
        1
    }

    open spec fn spec_samples(&self) -> nat {
        self@.len()
    }

    fn channels(&self) -> (n: usize) {
        1
    }

    fn samples(&self) -> (n: usize) {
        self.len()
    }
}

/// A slice of samples is a buffer of one channel.
impl<S> SampleBuffer<S> for [S] {
    open spec fn buffer_wf(&self) -> bool {
        true
    }

    open spec fn spec_channels(&self) -> nat {
        1
    }

    open spec fn spec_samples(&self) -> nat {
        self@.len()
    }

    fn channels(&self) -> (n: usize) {
        1
    }

    fn samples(&self) -> (n: usize) {
        self.len()
    }
}

/// A buffer without channels, for transfers that carry metadata only, such
/// as the end of a burst.
#[derive(Clone, Copy, Debug, PartialEq, Eq)]
pub struct EmptyBuf;

impl<S> SampleBuffer<S> for EmptyBuf {
    open spec fn buffer_wf(&self) -> bool {
        true
    }

    open spec fn spec_channels(&self) -> nat {
        0
    }

    open spec fn spec_samples(&self) -> nat {
        0
    }

    fn channels(&self) -> (n: usize) {
        0
    }

    fn samples(&self) -> (n: usize) {
        0
    }
}

} // verus!
