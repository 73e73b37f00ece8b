//! A buffer that owns its samples, one block of memory for each channel.

use crate::buffer::layout::{
    cloned_seq, flatten, is_rectangular, lemma_flat_index, lemma_flatten_index,
    lemma_split_rectangular, rows_view, split,
};
use crate::buffer::SampleBuffer;
use vstd::arithmetic::div_mod::lemma_fundamental_div_mod;
use vstd::prelude::*;
use vstd::std_specs::cmp::PartialEqSpec;
use vstd::std_specs::iter::IteratorSpec;

verus! {

/// A two-dimensional sample buffer in which each channel is backed by
/// contiguous memory.
///
/// The first dimension is the channel number, the second the sample number.
#[derive(Debug)]
pub struct ArrayBuffer<S> {
    inner: Vec<Vec<S>>,
    samples: usize,
}

impl<S> View for ArrayBuffer<S> {
    type V = Seq<Seq<S>>;

    /// The channels of the buffer, each as the sequence of its samples.
    closed spec fn view(&self) -> Seq<Seq<S>> {
        Seq::new(self.inner.len() as nat, |c: int| self.inner[c]@)
    }
}

impl<S> SampleBuffer<S> for ArrayBuffer<S> {
    open spec fn buffer_wf(&self) -> bool {
        self.wf()
    }

    open spec fn spec_channels(&self) -> nat {
        self@.len()
    }

    open spec fn spec_samples(&self) -> nat {
        self.samples_per_channel()
    }

    fn channels(&self) -> (n: usize) {
        self.inner.len()
    }

    fn samples(&self) -> (n: usize) {
        self.samples
    }
}

impl<S> ArrayBuffer<S> {
    /// The buffer is a rectangle: each channel holds `samples_per_channel()`
    /// samples.
    pub closed spec fn wf(&self) -> bool {
        forall|c: int|
            0 <= c < self.inner.len() ==> (#[trigger] self.inner[c]).len() == self.samples
    }

    /// The number of samples that each channel holds.
    pub closed spec fn samples_per_channel(&self) -> nat {
        self.samples as nat
    }

    /// The buffer has `channels` channels of `samples` samples each.
    pub open spec fn has_shape(&self, channels: nat, samples: nat) -> bool {
        &&& self.wf()
        &&& self@.len() == channels
        &&& self.samples_per_channel() == samples
        &&& is_rectangular(self@, samples)
    }

    /// All samples of the buffer in channel-major order.
    pub open spec fn flat(&self) -> Seq<S> {
        flatten(self@, self.samples_per_channel())
    }

    /// A buffer that was made with a shape reads back that shape.
    pub proof fn lemma_shape_reads_back(&self, channels: nat, samples: nat)
        requires
            self.has_shape(channels, samples),
        ensures
            self.buffer_wf(),
            self.spec_channels() == channels,
            self.spec_samples() == samples,
    {
    }

    /// All channels of a well-formed buffer have the same length, the
    /// number of samples per channel that the buffer reports. Both counts
    /// fit a machine word.
    pub proof fn lemma_channels_have_equal_length(&self)
        requires
            self.wf(),
        ensures
            self.has_shape(self@.len(), self.samples_per_channel()),
            self@.len() <= usize::MAX,
            self.samples_per_channel() <= usize::MAX,
    {
    }

    /// Creates a buffer in which every sample is a clone of the default
    /// value of `S`.
    pub fn new(channels: usize, samples: usize) -> (buf: Self) where S: Clone + Default
        ensures
            buf.has_shape(channels as nat, samples as nat),
            exists|fill: S|
                {
                    &&& S::default.ensures((), fill)
                    &&& forall|c: int, s: int|
                        0 <= c < channels && 0 <= s < samples ==> cloned(
                            fill,
                            #[trigger] buf@[c][s],
                        )
                },
    {
        let fill = S::default();
        let buf = Self::with_fill(channels, samples, fill);
        assert(S::default.ensures((), fill) && forall|c: int, s: int|
            0 <= c < channels && 0 <= s < samples ==> cloned(fill, #[trigger] buf@[c][s]));
        buf
    }

    /// Creates a buffer in which every sample is a clone of `fill`.
    pub fn with_fill(channels: usize, samples: usize, fill: S) -> (buf: Self) where S: Clone
        ensures
            buf.has_shape(channels as nat, samples as nat),
            forall|c: int, s: int|
                0 <= c < channels && 0 <= s < samples ==> cloned(fill, #[trigger] buf@[c][s]),
    {
        let mut inner: Vec<Vec<S>> = Vec::with_capacity(channels);
        let mut c: usize = 0;
        while c < channels
            invariant
                c <= channels,
                inner.len() == c,
                forall|k: int| 0 <= k < c ==> (#[trigger] inner[k]).len() == samples,
                forall|k: int, s: int|
                    0 <= k < c && 0 <= s < samples ==> cloned(fill, #[trigger] inner[k][s]),
            decreases channels - c,
        {
            let mut chan: Vec<S> = Vec::with_capacity(samples);
            let mut s: usize = 0;
            while s < samples
                invariant
                    s <= samples,
                    chan.len() == s,
                    forall|j: int| 0 <= j < s ==> cloned(fill, #[trigger] chan[j]),
                decreases samples - s,
            {
                chan.push(fill.clone());
                s += 1;
            }
            inner.push(chan);
            c += 1;
        }
        ArrayBuffer { inner, samples }
    }

    /// Builds a buffer from the samples that `iter` yields, taken in
    /// channel-major order.
    ///
    /// The number of samples must be a multiple of `channels`.
    pub fn from_iter_samples<I>(channels: usize, iter: I) -> (buf: Self) where
        S: Clone,
        I: Iterator<Item = S>,

        requires
            channels > 0,
            iter.obeys_prophetic_iter_laws(),
            iter.decrease() is Some,
            iter.remaining().len() % (channels as nat) == 0,
        ensures
            buf.has_shape(channels as nat, iter.remaining().len() / (channels as nat)),
            buf@ == split(iter.remaining(), channels as nat),
    {
        let value = collect(iter);
        Self::from_vec_samples(channels, value)
    }

    /// Builds a buffer from an iterator over channels, each of them an
    /// iterator over the samples of that channel.
    ///
    /// All channels must yield the same number of samples.
    pub fn from_iter_channels<I, J>(iter: I) -> (buf: Self) where
        I: Iterator<Item = J>,
        J: Iterator<Item = S>,

        requires
            iter.obeys_prophetic_iter_laws(),
            iter.decrease() is Some,
            forall|k: int|
                0 <= k < iter.remaining().len() ==> {
                    &&& (#[trigger] iter.remaining()[k]).obeys_prophetic_iter_laws()
                    &&& iter.remaining()[k].decrease() is Some
                    &&& iter.remaining()[k].remaining().len() == iter.remaining()[0].remaining().len()
                },
        ensures
            buf.wf(),
            buf@.len() == iter.remaining().len(),
            forall|k: int|
                0 <= k < buf@.len() ==> #[trigger] buf@[k] == iter.remaining()[k].remaining(),
            buf.samples_per_channel() == if iter.remaining().len() == 0 {
                0
            } else {
                iter.remaining()[0].remaining().len()
            },
    {
        let mut iter = iter;
        let ghost all = iter.remaining();
        let mut value: Vec<Vec<S>> = Vec::new();
        loop
            invariant
                iter.obeys_prophetic_iter_laws(),
                iter.decrease() is Some,
                value.len() + iter.remaining().len() == all.len(),
                forall|k: int|
                    0 <= k < iter.remaining().len() ==> #[trigger] iter.remaining()[k] == all[
                        value.len() + k],
                forall|k: int|
                    0 <= k < all.len() ==> {
                        &&& (#[trigger] all[k]).obeys_prophetic_iter_laws()
                        &&& all[k].decrease() is Some
                        &&& all[k].remaining().len() == all[0].remaining().len()
                    },
                forall|k: int| 0 <= k < value.len() ==> (#[trigger] value[k])@ == all[k].remaining(),
            ensures
                value.len() == all.len(),
                forall|k: int| 0 <= k < value.len() ==> (#[trigger] value[k])@ == all[k].remaining(),
                forall|k: int|
                    0 <= k < all.len() ==> (#[trigger] all[k]).remaining().len()
                        == all[0].remaining().len(),
            decreases iter.decrease()->0,
        {
            let ghost before = iter.remaining();
            match iter.next() {
                Some(row) => {
                    assert(row == before[0]);
                    assert forall|k: int| 0 <= k < iter.remaining().len() implies
                        #[trigger] iter.remaining()[k] == all[value.len() + 1 + k] by {
                        assert(iter.remaining()[k] == before[k + 1]);
                    }
                    let samples = collect(row);
                    value.push(samples);
                },
                None => {
                    break ;
                },
            }
        }
        let buf = Self::from_vec_channels(value);
        buf
    }

    /// Builds a buffer from a flat list of samples.
    ///
    /// The samples are taken in channel-major order: channel `c` of the
    /// buffer holds the elements `c * n .. (c + 1) * n` of `value`, where `n`
    /// is the length of `value` divided by `channels`.
    pub fn from_vec_samples(channels: usize, value: Vec<S>) -> (buf: Self) where S: Clone
        requires
            channels > 0,
            value.len() % channels == 0,
        ensures
            buf.has_shape(channels as nat, (value.len() / channels) as nat),
            buf@ == split(value@, channels as nat),
            forall|c: int, s: int|
                0 <= c < channels && 0 <= s < value.len() / channels ==> (#[trigger] buf@[c][s])
                    == value@[c * (value.len() / channels) + s],
    {
        let samples = value.len() / channels;
        let ghost flat = value@;
        proof {
            lemma_fundamental_div_mod(value.len() as int, channels as int);
            lemma_split_rectangular(flat, channels as nat);
        }
        // Rows are cut off the end of the list, last channel first.
        let mut rest = value;
        let mut reversed: Vec<Vec<S>> = Vec::with_capacity(channels);
        let mut c: usize = channels;
        while c > 0
            invariant
                c <= channels,
                flat.len() == channels * samples,
                flat.len() <= usize::MAX,
                reversed.len() == channels - c,
                rest@ == flat.subrange(0, c * samples),
                forall|k: int|
                    0 <= k < reversed.len() ==> (#[trigger] reversed[k])@ == flat.subrange(
                        (channels - 1 - k) * samples,
                        (channels - k) * samples,
                    ),
            decreases c,
        {
            c -= 1;
            proof {
                assert(c * samples + samples == (c + 1) * samples) by (nonlinear_arith);
                assert(0 <= c * samples && (c + 1) * samples <= channels * samples)
                    by (nonlinear_arith)
                    requires
                        0 <= c,
                        c + 1 <= channels,
                ;
            }
            let row = rest.split_off(c * samples);
            assert(row@ == flat.subrange(c * samples, (c + 1) * samples));
            assert(rest@ == flat.subrange(0, c * samples));
            reversed.push(row);
        }
        let mut inner: Vec<Vec<S>> = Vec::with_capacity(channels);
        while reversed.len() > 0
            invariant
                reversed.len() + inner.len() == channels,
                flat.len() == channels * samples,
                forall|k: int|
                    0 <= k < inner.len() ==> (#[trigger] inner[k])@ == flat.subrange(
                        k * samples,
                        (k + 1) * samples,
                    ),
                forall|k: int|
                    0 <= k < reversed.len() ==> (#[trigger] reversed[k])@ == flat.subrange(
                        (channels - 1 - k) * samples,
                        (channels - k) * samples,
                    ),
            decreases reversed.len(),
        {
            let ghost k = inner.len() as int;
            let row = reversed.pop().unwrap();
            assert(row@ == flat.subrange(k * samples, (k + 1) * samples));
            inner.push(row);
        }
        proof {
            assert forall|k: int| 0 <= k < inner.len() implies (#[trigger] inner[k]).len()
                == samples by {
                assert(inner[k]@ == split(flat, channels as nat)[k]);
            }
        }
        let buf = ArrayBuffer { inner, samples };
        assert(buf@ =~= split(flat, channels as nat));
        buf
    }

    /// Builds a buffer from one vector of samples per channel, without
    /// copying them.
    ///
    /// All inner vectors must have the same length.
    pub fn from_vec_channels(value: Vec<Vec<S>>) -> (buf: Self)
        requires
            forall|c: int| 0 <= c < value.len() ==> (#[trigger] value[c]).len() == value[0].len(),
        ensures
            buf.has_shape(
                value.len() as nat,
                if value.len() == 0 {
                    0
                } else {
                    value[0]@.len()
                },
            ),
            buf@ == rows_view(value@),
    {
        let samples = if value.len() == 0 {
            0
        } else {
            value[0].len()
        };
        let buf = ArrayBuffer { inner: value, samples };
        assert(buf@ =~= rows_view(value@));
        buf
    }

    /// Builds a buffer from a flat list of samples, if the list can be cut
    /// into `channels` rows of equal length.
    ///
    /// Returns `None` if `channels` is zero or the length of `value` is not
    /// a multiple of `channels`. See [`ArrayBuffer::from_vec_samples`].
    pub fn try_from_vec_samples(channels: usize, value: Vec<S>) -> (res: Option<Self>) where
        S: Clone,

        ensures
            res is Some <==> channels > 0 && value.len() % channels == 0,
            res is Some ==> {
                &&& res->Some_0.has_shape(channels as nat, (value.len() / channels) as nat)
                &&& res->Some_0@ == split(value@, channels as nat)
            },
    {
        if channels == 0 || value.len() % channels != 0 {
            None
        } else {
            Some(Self::from_vec_samples(channels, value))
        }
    }

    /// Builds a buffer from one vector of samples per channel, if all the
    /// vectors have the same length.
    ///
    /// Returns `None` if two of them differ in length. See
    /// [`ArrayBuffer::from_vec_channels`].
    pub fn try_from_vec_channels(value: Vec<Vec<S>>) -> (res: Option<Self>)
        ensures
            res is Some <==> (forall|c: int|
                0 <= c < value.len() ==> (#[trigger] value[c]).len() == value[0].len()),
            res is Some ==> {
                &&& res->Some_0.wf()
                &&& res->Some_0@ == rows_view(value@)
                &&& res->Some_0.samples_per_channel() == if value.len() == 0 {
                    0
                } else {
                    value[0]@.len()
                }
            },
    {
        let mut c: usize = 1;
        while c < value.len()
            invariant
                1 <= c,
                forall|k: int|
                    0 <= k < c && k < value.len() ==> (#[trigger] value[k]).len()
                        == value[0].len(),
            decreases value.len() - c,
        {
            if value[c].len() != value[0].len() {
                return None;
            }
            c += 1;
        }
        Some(Self::from_vec_channels(value))
    }

    /// Builds a buffer from the samples that `iter` yields, in channel-major
    /// order. See [`ArrayBuffer::from_iter_samples`].
    pub fn from_iter<I>(channels: usize, iter: I) -> (buf: Self) where
        S: Clone,
        I: Iterator<Item = S>,

        requires
            channels > 0,
            iter.obeys_prophetic_iter_laws(),
            iter.decrease() is Some,
            iter.remaining().len() % (channels as nat) == 0,
        ensures
            buf.has_shape(channels as nat, iter.remaining().len() / (channels as nat)),
            buf@ == split(iter.remaining(), channels as nat),
    {
        Self::from_iter_samples(channels, iter)
    }

    /// Builds a buffer from an iterator over channels. See
    /// [`ArrayBuffer::from_iter_channels`].
    pub fn from_nested_iter<I, J>(iter: I) -> (buf: Self) where
        I: Iterator<Item = J>,
        J: Iterator<Item = S>,

        requires
            iter.obeys_prophetic_iter_laws(),
            iter.decrease() is Some,
            forall|k: int|
                0 <= k < iter.remaining().len() ==> {
                    &&& (#[trigger] iter.remaining()[k]).obeys_prophetic_iter_laws()
                    &&& iter.remaining()[k].decrease() is Some
                    &&& iter.remaining()[k].remaining().len() == iter.remaining()[0].remaining().len()
                },
        ensures
            buf.wf(),
            buf@.len() == iter.remaining().len(),
            forall|k: int|
                0 <= k < buf@.len() ==> #[trigger] buf@[k] == iter.remaining()[k].remaining(),
            buf.samples_per_channel() == if iter.remaining().len() == 0 {
                0
            } else {
                iter.remaining()[0].remaining().len()
            },
    {
        Self::from_iter_channels(iter)
    }

    /// Builds a buffer from a flat list of samples. See
    /// [`ArrayBuffer::from_vec_samples`].
    pub fn from_vec(channels: usize, value: Vec<S>) -> (buf: Self) where S: Clone
        requires
            channels > 0,
            value.len() % channels == 0,
        ensures
            buf.has_shape(channels as nat, (value.len() / channels) as nat),
            buf@ == split(value@, channels as nat),
    {
        Self::from_vec_samples(channels, value)
    }

    /// Builds a buffer from one vector of samples per channel. See
    /// [`ArrayBuffer::from_vec_channels`].
    pub fn from_nested_vec(value: Vec<Vec<S>>) -> (buf: Self)
        requires
            forall|c: int| 0 <= c < value.len() ==> (#[trigger] value[c]).len() == value[0].len(),
        ensures
            buf.has_shape(
                value.len() as nat,
                if value.len() == 0 {
                    0
                } else {
                    value[0]@.len()
                },
            ),
            buf@ == rows_view(value@),
    {
        Self::from_vec_channels(value)
    }

    /// The samples of one channel, or `None` if `channel` is out of bounds.
    pub fn channel(&self, channel: usize) -> (res: Option<&[S]>)
        ensures
            channel < self@.len() ==> res is Some && res->Some_0@ == self@[channel as int],
            channel >= self@.len() ==> res is None,
    {
        if channel < self.inner.len() {
            Some(self.inner[channel].as_slice())
        } else {
            None
        }
    }

    /// The samples of one channel, or `None` if `channel` is out of bounds.
    pub fn get(&self, channel: usize) -> (res: Option<&[S]>)
        ensures
            channel < self@.len() ==> res is Some && res->Some_0@ == self@[channel as int],
            channel >= self@.len() ==> res is None,
    {
        self.channel(channel)
    }

    /// Mutable access to the samples of one channel, or `None` if `channel`
    /// is out of bounds.
    ///
    /// Writing through one of the references changes that sample and
    /// nothing else; the shape of the buffer stays as it is.
    pub fn channel_mut(&mut self, channel: usize) -> (res: Option<Vec<&mut S>>)
        requires
            old(self).wf(),
        ensures
            channel < old(self)@.len() ==> {
                &&& res is Some
                &&& res->Some_0.len() == old(self).samples_per_channel()
                &&& forall|s: int|
                    0 <= s < res->Some_0.len() ==> *(#[trigger] res->Some_0[s]) == old(
                        self,
                    )@[channel as int][s]
                &&& final(self).has_shape(old(self)@.len(), old(self).samples_per_channel())
                &&& forall|s: int|
                    0 <= s < res->Some_0.len() ==> final(self)@[channel as int][s]
                        == *final(#[trigger] res->Some_0[s])
                &&& forall|c: int|
                    0 <= c < final(self)@.len() && c != channel ==> final(self)@[c] == old(
                        self,
                    )@[c]
            },
            channel >= old(self)@.len() ==> res is None && *final(self) == *old(self),
    {
        if channel < self.inner.len() {
            let row = &mut self.inner[channel];
            let refs = row_refs(row.as_mut_slice());
            Some(refs)
        } else {
            None
        }
    }

    /// Mutable access to the samples of one channel, or `None` if `channel`
    /// is out of bounds. See [`ArrayBuffer::channel_mut`].
    pub fn get_mut(&mut self, channel: usize) -> (res: Option<Vec<&mut S>>)
        requires
            old(self).wf(),
        ensures
            channel < old(self)@.len() ==> {
                &&& res is Some
                &&& res->Some_0.len() == old(self).samples_per_channel()
                &&& forall|s: int|
                    0 <= s < res->Some_0.len() ==> *(#[trigger] res->Some_0[s]) == old(
                        self,
                    )@[channel as int][s]
                &&& final(self).has_shape(old(self)@.len(), old(self).samples_per_channel())
                &&& forall|s: int|
                    0 <= s < res->Some_0.len() ==> final(self)@[channel as int][s]
                        == *final(#[trigger] res->Some_0[s])
                &&& forall|c: int|
                    0 <= c < final(self)@.len() && c != channel ==> final(self)@[c] == old(
                        self,
                    )@[c]
            },
            channel >= old(self)@.len() ==> res is None && *final(self) == *old(self),
    {
        self.channel_mut(channel)
    }

    /// Sets every sample of the buffer to a clone of `value`.
    pub fn fill(&mut self, value: S) where S: Clone
        requires
            old(self).wf(),
        ensures
            final(self).has_shape(old(self)@.len(), old(self).samples_per_channel()),
            forall|c: int, s: int|
                0 <= c < final(self)@.len() && 0 <= s < final(self).samples_per_channel()
                    ==> cloned(value, #[trigger] final(self)@[c][s]),
    {
        let channels = self.inner.len();
        let mut c: usize = 0;
        while c < channels
            invariant
                c <= channels,
                self.inner.len() == channels,
                self.samples == old(self).samples,
                self.wf(),
                forall|k: int, s: int|
                    0 <= k < c && 0 <= s < self.samples ==> cloned(
                        value,
                        #[trigger] self.inner[k][s],
                    ),
            decreases channels - c,
        {
            self.fill_row(c, &value);
            c += 1;
        }
    }

    /// Sets every sample of one channel to a clone of `value`.
    pub fn fill_channel(&mut self, channel: usize, value: S) where S: Clone
        requires
            old(self).wf(),
            channel < old(self)@.len(),
        ensures
            final(self).has_shape(old(self)@.len(), old(self).samples_per_channel()),
            forall|s: int|
                0 <= s < final(self).samples_per_channel() ==> cloned(
                    value,
                    #[trigger] final(self)@[channel as int][s],
                ),
            forall|c: int|
                0 <= c < final(self)@.len() && c != channel ==> final(self)@[c] == old(self)@[c],
    {
        self.fill_row(channel, &value);
    }

    fn fill_row(&mut self, channel: usize, value: &S) where S: Clone
        requires
            old(self).wf(),
            channel < old(self).inner.len(),
        ensures
            final(self).wf(),
            final(self).inner.len() == old(self).inner.len(),
            final(self).samples == old(self).samples,
            forall|s: int|
                0 <= s < final(self).samples ==> cloned(
                    *value,
                    #[trigger] final(self).inner[channel as int][s],
                ),
            forall|c: int|
                0 <= c < final(self).inner.len() && c != channel ==> final(self).inner[c] == old(
                    self,
                ).inner[c],
    {
        let samples = self.samples;
        let mut s: usize = 0;
        while s < samples
            invariant
                s <= samples,
                channel < self.inner.len(),
                self.inner.len() == old(self).inner.len(),
                self.samples == samples,
                self.wf(),
                forall|j: int| 0 <= j < s ==> cloned(*value, #[trigger] self.inner[channel as int][j]),
                forall|c: int|
                    0 <= c < self.inner.len() && c != channel ==> self.inner[c] == old(
                        self,
                    ).inner[c],
            decreases samples - s,
        {
            self.inner[channel][s] = value.clone();
            s += 1;
        }
    }

    /// The channels of the buffer, in order.
    pub fn iter_channels(&self) -> (rows: Vec<&[S]>)
        ensures
            rows.len() == self@.len(),
            forall|c: int| 0 <= c < rows.len() ==> (#[trigger] rows[c])@ == self@[c],
    {
        let mut rows: Vec<&[S]> = Vec::with_capacity(self.inner.len());
        let mut c: usize = 0;
        while c < self.inner.len()
            invariant
                c <= self.inner.len(),
                rows.len() == c,
                forall|k: int| 0 <= k < c ==> (#[trigger] rows[k])@ == self.inner[k]@,
            decreases self.inner.len() - c,
        {
            rows.push(self.inner[c].as_slice());
            c += 1;
        }
        rows
    }

    /// The channels of the buffer, in order.
    pub fn iter(&self) -> (rows: Vec<&[S]>)
        ensures
            rows.len() == self@.len(),
            forall|c: int| 0 <= c < rows.len() ==> (#[trigger] rows[c])@ == self@[c],
    {
        self.iter_channels()
    }

    /// Mutable access to the samples of every channel, channel by channel.
    ///
    /// Writing through one of the references changes that sample and
    /// nothing else; the shape of the buffer stays as it is.
    pub fn iter_channels_mut(&mut self) -> (rows: Vec<Vec<&mut S>>)
        requires
            old(self).wf(),
        ensures
            rows.len() == old(self)@.len(),
            forall|c: int|
                0 <= c < rows.len() ==> (#[trigger] rows[c]).len() == old(
                    self,
                ).samples_per_channel(),
            forall|c: int, s: int|
                0 <= c < rows.len() && 0 <= s < old(self).samples_per_channel() ==> *(
                #[trigger] rows[c][s]) == old(self)@[c][s],
            final(self).has_shape(old(self)@.len(), old(self).samples_per_channel()),
            forall|c: int, s: int|
                0 <= c < rows.len() && 0 <= s < old(self).samples_per_channel() ==> final(self)@[c][s] == *final(#[trigger] rows[c][s]),
    {
        let ghost n = self.samples as int;
        let ghost rows0 = self@;
        let ghost self_fin = *final(self);
        let mut rows: Vec<Vec<&mut S>> = Vec::new();
        let inner = self.inner.as_mut_slice();
        let ghost inner_fin = final(inner)@;
        assert(inner_fin == self_fin.inner@);
        let mut rest = inner;
        let ghost mut rest_fin = inner_fin;
        while rest.len() > 0
            invariant
                0 <= n,
                rows.len() + rest@.len() == rows0.len(),
                is_rectangular(rows0, n as nat),
                forall|j: int|
                    0 <= j < rest@.len() ==> (#[trigger] rest@[j])@ == rows0[rows.len() + j],
                forall|c: int| 0 <= c < rows.len() ==> (#[trigger] rows[c]).len() == n,
                forall|c: int, s: int|
                    0 <= c < rows.len() && 0 <= s < n ==> *(#[trigger] rows[c][s])
                        == rows0[c][s],
                rest_fin == final(rest)@,
                inner_fin.len() == rows.len() + rest_fin.len(),
                forall|c: int| 0 <= c < rows.len() ==> (#[trigger] inner_fin[c]).len() == n,
                forall|c: int, s: int|
                    0 <= c < rows.len() && 0 <= s < n ==> inner_fin[c][s]
                        == *final(#[trigger] rows[c][s]),
                forall|j: int|
                    0 <= j < rest_fin.len() ==> inner_fin[rows.len() + j]
                        == #[trigger] rest_fin[j],
            decreases rest@.len(),
        {
            let current = rest;
            let ghost before = rows@;
            let ghost k = rows.len() as int;
            let ghost done_fin = rest_fin;
            let ghost current_rows = current@;
            let (head, tail) = current.split_at_mut(1);
            let ghost head_fin = final(head)@;
            let ghost tail_fin = final(tail)@;
            assert(rest_fin == head_fin + tail_fin);
            assert(head@.len() == 1);
            assert(head@[0]@ == rows0[k]);
            match head.first_mut() {
                Some(row) => {
                    let ghost row_fin = final(row)@;
                    assert(head_fin =~= seq![*final(row)]);
                    let refs = row_refs(row.as_mut_slice());
                    assert(refs.len() == n);
                    assert(row_fin.len() == n);
                    rows.push(refs);
                    proof {
                        assert(done_fin[0] == head_fin[0]);
                        assert(inner_fin[k + 0] == done_fin[0]);
                        assert(inner_fin[k]@ == row_fin);
                        assert forall|c: int| 0 <= c < rows.len() implies (
                        #[trigger] rows[c]).len() == n by {
                            if c < k {
                                assert(rows[c] == before[c]);
                            }
                        }
                        assert forall|c: int, s: int|
                            0 <= c < rows.len() && 0 <= s < n implies *(#[trigger] rows[c][s])
                            == rows0[c][s] by {
                            if c < k {
                                assert(rows[c] == before[c]);
                            }
                        }
                        assert forall|c: int, s: int|
                            0 <= c < rows.len() && 0 <= s < n implies inner_fin[c][s]
                            == *final(#[trigger] rows[c][s]) by {
                            if c < k {
                                assert(rows[c] == before[c]);
                            }
                        }
                        assert forall|j: int| 0 <= j < tail_fin.len() implies inner_fin[k + 1 + j]
                            == #[trigger] tail_fin[j] by {
                            assert(done_fin[j + 1] == tail_fin[j]);
                            assert(inner_fin[k + (j + 1)] == done_fin[j + 1]);
                        }
                        assert forall|j: int| 0 <= j < tail@.len() implies (#[trigger] tail@[j])@
                            == rows0[k + 1 + j] by {
                            assert(tail@[j] == current_rows[j + 1]);
                        }
                    }
                },
                None => {},
            }
            rest = tail;
            proof {
                rest_fin = tail_fin;
            }
        }
        proof {
            assert(rest_fin.len() == 0);
            assert(self_fin@ =~= Seq::new(inner_fin.len(), |c: int| inner_fin[c]@));
            assert forall|c: int, s: int| 0 <= c < rows.len() && 0 <= s < n implies self_fin@[c][s]
                == *final(#[trigger] rows[c][s]) by {
                assert(self_fin@[c][s] == inner_fin[c][s]);
            }
        }
        rows
    }

    /// Mutable access to the samples of every channel, channel by channel.
    /// See [`ArrayBuffer::iter_channels_mut`].
    pub fn iter_mut(&mut self) -> (rows: Vec<Vec<&mut S>>)
        requires
            old(self).wf(),
        ensures
            rows.len() == old(self)@.len(),
            forall|c: int|
                0 <= c < rows.len() ==> (#[trigger] rows[c]).len() == old(
                    self,
                ).samples_per_channel(),
            forall|c: int, s: int|
                0 <= c < rows.len() && 0 <= s < old(self).samples_per_channel() ==> *(
                #[trigger] rows[c][s]) == old(self)@[c][s],
            final(self).has_shape(old(self)@.len(), old(self).samples_per_channel()),
            forall|c: int, s: int|
                0 <= c < rows.len() && 0 <= s < old(self).samples_per_channel() ==> final(self)@[c][s] == *final(#[trigger] rows[c][s]),
    {
        self.iter_channels_mut()
    }

    /// All samples of the buffer in channel-major order:
    /// `[S(0,0), S(0,1), ..., S(1,0), S(1,1), ...]`, where `S(i,j)` is sample
    /// `j` of channel `i`.
    pub fn iter_samples(&self) -> (all: Vec<&S>)
        requires
            self.wf(),
        ensures
            all.len() == self.flat().len(),
            forall|i: int| 0 <= i < all.len() ==> *(#[trigger] all[i]) == self.flat()[i],
    {
        let samples = self.samples;
        let mut all: Vec<&S> = Vec::new();
        let mut c: usize = 0;
        while c < self.inner.len()
            invariant
                c <= self.inner.len(),
                self.wf(),
                samples == self.samples,
                all.len() == c * samples,
                forall|i: int| 0 <= i < all.len() ==> *(#[trigger] all[i]) == self.flat()[i],
            decreases self.inner.len() - c,
        {
            let row = &self.inner[c];
            let mut s: usize = 0;
            while s < samples
                invariant
                    c < self.inner.len(),
                    self.wf(),
                    samples == self.samples,
                    row == &self.inner[c as int],
                    s <= samples,
                    all.len() == c * samples + s,
                    forall|i: int| 0 <= i < all.len() ==> *(#[trigger] all[i]) == self.flat()[i],
                decreases samples - s,
            {
                proof {
                    lemma_flatten_index(self@, samples as nat, c as int, s as int);
                }
                all.push(&row[s]);
                s += 1;
            }
            assert(c * samples + samples == (c + 1) * samples) by (nonlinear_arith);
            c += 1;
        }
        all
    }

    /// Mutable access to all samples of the buffer in channel-major order.
    ///
    /// Writing through one of the references changes that sample and
    /// nothing else; the shape of the buffer stays as it is.
    pub fn iter_samples_mut(&mut self) -> (all: Vec<&mut S>)
        requires
            old(self).wf(),
        ensures
            all.len() == old(self).flat().len(),
            forall|i: int| 0 <= i < all.len() ==> *(#[trigger] all[i]) == old(self).flat()[i],
            final(self).has_shape(old(self)@.len(), old(self).samples_per_channel()),
            forall|i: int|
                0 <= i < all.len() ==> final(self).flat()[i] == *final(#[trigger] all[i]),
    {
        let ghost n = self.samples as int;
        let ghost rows0 = self@;
        let ghost flat0 = self.flat();
        let ghost self_fin = *final(self);
        let mut all: Vec<&mut S> = Vec::new();
        let rows = self.inner.as_mut_slice();
        let ghost rows_fin = final(rows)@;
        assert(rows_fin == self_fin.inner@);
        let mut rest = rows;
        let ghost mut rest_fin = rows_fin;
        let ghost mut k: int = 0;
        while rest.len() > 0
            invariant
                0 <= k,
                0 <= n,
                k + rest@.len() == rows0.len(),
                all.len() == k * n,
                flat0 == flatten(rows0, n as nat),
                is_rectangular(rows0, n as nat),
                forall|j: int| 0 <= j < rest@.len() ==> (#[trigger] rest@[j])@ == rows0[k + j],
                forall|i: int| 0 <= i < all.len() ==> *(#[trigger] all[i]) == flat0[i],
                rest_fin == final(rest)@,
                rows_fin.len() == k + rest_fin.len(),
                forall|c: int| 0 <= c < k ==> (#[trigger] rows_fin[c]).len() == n,
                forall|c: int, s: int|
                    0 <= c < k && 0 <= s < n ==> (#[trigger] rows_fin[c][s])
                        == *final(all[c * n + s]),
                forall|j: int|
                    0 <= j < rest_fin.len() ==> rows_fin[k + j] == #[trigger] rest_fin[j],
            decreases rest@.len(),
        {
            let current = rest;
            let ghost before = all@;
            let ghost done_fin = rest_fin;
            let ghost current_rows = current@;
            let (head, tail) = current.split_at_mut(1);
            let ghost head_fin = final(head)@;
            let ghost tail_fin = final(tail)@;
            assert(rest_fin == head_fin + tail_fin);
            assert(head@.len() == 1);
            assert(head@[0]@ == rows0[k]);
            match head.first_mut() {
                Some(row) => {
                    let ghost row_fin = final(row)@;
                    assert(head_fin =~= seq![*final(row)]);
                    let samples = row.as_mut_slice();
                    let mut refs = row_refs(samples);
                    assert(refs.len() == n);
                    assert(row_fin.len() == n);
                    let ghost fresh = refs@;
                    all.append(&mut refs);
                    proof {
                        assert(all@ =~= before + fresh);
                        assert(k * n + n == (k + 1) * n) by (nonlinear_arith);
                        assert forall|i: int| 0 <= i < all.len() implies *(#[trigger] all[i])
                            == flat0[i] by {
                            if i >= k * n {
                                let s = i - k * n;
                                assert(all[i] == fresh[s]);
                                lemma_flatten_index(rows0, n as nat, k, s);
                            } else {
                                assert(all[i] == before[i]);
                            }
                        }
                        assert(done_fin[0] == head_fin[0]);
                        assert(rows_fin[k + 0] == done_fin[0]);
                        assert(rows_fin[k]@ == row_fin);
                        assert forall|c: int, s: int| 0 <= c < k + 1 && 0 <= s < n implies (
                        #[trigger] rows_fin[c][s]) == *final(all[c * n + s]) by {
                            lemma_flat_index(c, s, n);
                            if c < k {
                                assert((c + 1) * n <= k * n) by (nonlinear_arith)
                                    requires
                                        c + 1 <= k,
                                        0 <= n,
                                ;
                                assert(all[c * n + s] == before[c * n + s]);
                            } else {
                                assert(all[k * n + s] == fresh[s]);
                            }
                        }
                        assert forall|j: int| 0 <= j < tail_fin.len() implies rows_fin[k + 1 + j]
                            == #[trigger] tail_fin[j] by {
                            assert(done_fin[j + 1] == tail_fin[j]);
                            assert(rows_fin[k + (j + 1)] == done_fin[j + 1]);
                        }
                        assert forall|j: int| 0 <= j < tail@.len() implies (#[trigger] tail@[j])@
                            == rows0[k + 1 + j] by {
                            assert(tail@[j] == current_rows[j + 1]);
                        }
                    }
                },
                None => {},
            }
            rest = tail;
            proof {
                rest_fin = tail_fin;
                k = k + 1;
            }
        }
        proof {
            assert(rest_fin.len() == 0);
            assert(self_fin@ =~= Seq::new(rows_fin.len(), |c: int| rows_fin[c]@));
            assert forall|i: int| 0 <= i < all.len() implies self_fin.flat()[i]
                == *final(#[trigger] all[i]) by {
                let c = i / n;
                let s = i % n;
                assert(n > 0) by (nonlinear_arith)
                    requires
                        0 <= i < k * n,
                        0 <= k,
                        0 <= n,
                ;
                lemma_fundamental_div_mod(i, n);
                assert(0 <= c < k) by (nonlinear_arith)
                    requires
                        i == n * c + s,
                        0 <= s < n,
                        0 <= i < k * n,
                ;
                assert(c * n + s == i) by (nonlinear_arith)
                    requires
                        i == n * c + s,
                ;
                assert(rows_fin[c][s] == *final(all[c * n + s]));
                assert(self_fin@[c][s] == rows_fin[c][s]);
            }
        }
        all
    }

    /// Mutable access to the sample at position `index` of the flat,
    /// channel-major order, or `None` if the buffer holds no such sample.
    ///
    /// Writing through the reference changes that sample and nothing else.
    pub fn sample_mut(&mut self, index: usize) -> (res: Option<&mut S>)
        requires
            old(self).wf(),
        ensures
            index < old(self).flat().len() ==> {
                let n = old(self).samples_per_channel() as int;
                let c = index as int / n;
                let s = index as int % n;
                &&& res is Some
                &&& *res->Some_0 == old(self).flat()[index as int]
                &&& final(self).has_shape(old(self)@.len(), old(self).samples_per_channel())
                &&& final(self)@ == old(self)@.update(
                    c,
                    old(self)@[c].update(s, *final(res->Some_0)),
                )
            },
            index >= old(self).flat().len() ==> res is None && *final(self) == *old(self),
    {
        let samples = self.samples;
        if samples == 0 {
            assert(self@.len() * 0 == 0);
            return None;
        }
        let c = index / samples;
        let s = index % samples;
        proof {
            lemma_fundamental_div_mod(index as int, samples as int);
            let n = self.inner.len() as int;
            assert(c < n <==> index < n * samples) by (nonlinear_arith)
                requires
                    index == samples * c + s,
                    0 <= s < samples,
                    0 <= c,
                    0 <= n,
            ;
        }
        if c < self.inner.len() {
            Some(&mut self.inner[c][s])
        } else {
            None
        }
    }

    /// A copy of the buffer as one vector of samples per channel.
    pub fn to_vec(&self) -> (rows: Vec<Vec<S>>) where S: Clone
        ensures
            rows.len() == self@.len(),
            forall|c: int| 0 <= c < rows.len() ==> cloned_seq(self@[c], (#[trigger] rows[c])@),
    {
        let mut rows: Vec<Vec<S>> = Vec::with_capacity(self.inner.len());
        let mut c: usize = 0;
        while c < self.inner.len()
            invariant
                c <= self.inner.len(),
                rows.len() == c,
                forall|k: int|
                    0 <= k < c ==> cloned_seq(self.inner[k]@, (#[trigger] rows[k])@),
            decreases self.inner.len() - c,
        {
            let row = clone_row(&self.inner[c]);
            rows.push(row);
            c += 1;
        }
        rows
    }

    /// A copy of the buffer as one vector of samples per channel.
    pub fn to_nested_vec(&self) -> (rows: Vec<Vec<S>>) where S: Clone
        ensures
            rows.len() == self@.len(),
            forall|c: int| 0 <= c < rows.len() ==> cloned_seq(self@[c], (#[trigger] rows[c])@),
    {
        self.to_vec()
    }

    /// A copy of all samples in one vector, in channel-major order.
    pub fn to_flat_vec(&self) -> (all: Vec<S>) where S: Clone
        requires
            self.wf(),
        ensures
            cloned_seq(self.flat(), all@),
    {
        let samples = self.samples;
        let mut all: Vec<S> = Vec::new();
        let mut c: usize = 0;
        while c < self.inner.len()
            invariant
                c <= self.inner.len(),
                self.wf(),
                samples == self.samples,
                all.len() == c * samples,
                forall|i: int| 0 <= i < all.len() ==> cloned(self.flat()[i], #[trigger] all[i]),
            decreases self.inner.len() - c,
        {
            let row = &self.inner[c];
            let mut s: usize = 0;
            while s < samples
                invariant
                    c < self.inner.len(),
                    self.wf(),
                    samples == self.samples,
                    row == &self.inner[c as int],
                    s <= samples,
                    all.len() == c * samples + s,
                    forall|i: int| 0 <= i < all.len() ==> cloned(self.flat()[i], #[trigger] all[i]),
                decreases samples - s,
            {
                proof {
                    lemma_flatten_index(self@, samples as nat, c as int, s as int);
                }
                all.push(row[s].clone());
                s += 1;
            }
            assert(c * samples + samples == (c + 1) * samples) by (nonlinear_arith);
            c += 1;
        }
        all
    }

    /// Turns the buffer into one vector of samples per channel, without
    /// copying them.
    pub fn into_vec(self) -> (rows: Vec<Vec<S>>)
        ensures
            rows_view(rows@) == self@,
    {
        let rows = self.inner;
        assert(rows_view(rows@) =~= self@);
        rows
    }

    /// Turns the buffer into one vector of samples per channel, without
    /// copying them.
    pub fn into_nested_vec(self) -> (rows: Vec<Vec<S>>)
        ensures
            rows_view(rows@) == self@,
    {
        self.into_vec()
    }
}

/// Mutable access to each element of a slice. The slice keeps its length,
/// and ends up holding what was last written through the references.
fn row_refs<'a, S>(row: &'a mut [S]) -> (out: Vec<&'a mut S>)
    ensures
        out.len() == old(row)@.len(),
        forall|i: int| 0 <= i < out.len() ==> *(#[trigger] out[i]) == old(row)@[i],
        final(row)@.len() == old(row)@.len(),
        forall|i: int| 0 <= i < out.len() ==> final(row)@[i] == *final(#[trigger] out[i]),
{
    let mut out: Vec<&'a mut S> = Vec::new();
    let ghost whole = row@;
    let ghost whole_fin = final(row)@;
    let mut rest: &'a mut [S] = row;
    let ghost mut rest_fin = whole_fin;
    while rest.len() > 0
        invariant
            out.len() + rest@.len() == whole.len(),
            forall|i: int| 0 <= i < out.len() ==> *(#[trigger] out[i]) == whole[i],
            forall|i: int| 0 <= i < rest@.len() ==> rest@[i] == whole[out.len() + i],
            rest_fin == final(rest)@,
            whole_fin.len() == out.len() + rest_fin.len(),
            forall|i: int| 0 <= i < out.len() ==> whole_fin[i] == *final(#[trigger] out[i]),
            forall|j: int|
                0 <= j < rest_fin.len() ==> whole_fin[out.len() + j] == #[trigger] rest_fin[j],
        decreases rest@.len(),
    {
        let current = rest;
        let ghost before = out@;
        let (head, tail) = current.split_at_mut(1);
        let ghost head_fin = final(head)@;
        let ghost tail_fin = final(tail)@;
        assert(rest_fin == head_fin + tail_fin);
        assert(head@.len() == 1);
        match head.first_mut() {
            Some(r) => {
                assert(head_fin =~= seq![*final(r)]);
                out.push(r);
            },
            None => {},
        }
        rest = tail;
        proof {
            let k = before.len() as int;
            assert(out@ =~= before.push(out@[k]));
            assert(rest_fin[0] == head_fin[0]);
            assert(whole_fin[k + 0] == rest_fin[0]);
            assert forall|i: int| 0 <= i < out.len() implies whole_fin[i]
                == *final(#[trigger] out[i]) by {
                if i < k {
                    assert(out[i] == before[i]);
                }
            }
            assert forall|j: int| 0 <= j < tail_fin.len() implies whole_fin[out.len() + j]
                == #[trigger] tail_fin[j] by {
                assert(rest_fin[j + 1] == tail_fin[j]);
                assert(whole_fin[k + (j + 1)] == rest_fin[j + 1]);
            }
            rest_fin = tail_fin;
        }
    }
    out
}

/// Gathers what `iter` yields.
fn collect<S, I: Iterator<Item = S>>(iter: I) -> (all: Vec<S>)
    requires
        iter.obeys_prophetic_iter_laws(),
        iter.decrease() is Some,
    ensures
        all@ == iter.remaining(),
{
    let mut iter = iter;
    let ghost whole = iter.remaining();
    let mut all: Vec<S> = Vec::new();
    loop
        invariant
            iter.obeys_prophetic_iter_laws(),
            iter.decrease() is Some,
            all@ + iter.remaining() == whole,
        ensures
            all@ == whole,
        decreases iter.decrease()->0,
    {
        match iter.next() {
            Some(x) => {
                all.push(x);
                assert(all@ + iter.remaining() =~= whole);
            },
            None => {
                assert(all@ + iter.remaining() =~= all@);
                break ;
            },
        }
    }
    all
}

/// Clones the samples of one channel, one by one.
fn clone_row<S: Clone>(row: &Vec<S>) -> (copy: Vec<S>)
    ensures
        cloned_seq(row@, copy@),
{
    let mut copy: Vec<S> = Vec::with_capacity(row.len());
    let mut s: usize = 0;
    while s < row.len()
        invariant
            s <= row.len(),
            copy.len() == s,
            forall|j: int| 0 <= j < s ==> cloned(row[j], #[trigger] copy[j]),
        decreases row.len() - s,
    {
        copy.push(row[s].clone());
        s += 1;
    }
    copy
}

/// Two buffers have the same shape, and their samples at each position are
/// equal by the `==` of `S`.
pub open spec fn same_samples<S: PartialEq>(a: &ArrayBuffer<S>, b: &ArrayBuffer<S>) -> bool {
    &&& a.samples_per_channel() == b.samples_per_channel()
    &&& a@.len() == b@.len()
    &&& forall|c: int|
        #![trigger a@[c]]
        0 <= c < a@.len() ==> {
            &&& a@[c].len() == b@[c].len()
            &&& forall|s: int|
                #![trigger a@[c][s]]
                0 <= s < a@[c].len() ==> a@[c][s].eq_spec(&b@[c][s])
        }
}

impl<S: Clone> Clone for ArrayBuffer<S> {
    /// Copies the buffer channel by channel.
    fn clone(&self) -> (copy: Self)
        ensures
            copy@.len() == self@.len(),
            copy.samples_per_channel() == self.samples_per_channel(),
            forall|c: int| 0 <= c < copy@.len() ==> cloned_seq(self@[c], #[trigger] copy@[c]),
            self.wf() ==> copy.wf(),
    {
        let rows = self.to_vec();
        ArrayBuffer { inner: rows, samples: self.samples }
    }
}

impl<S: PartialEq> PartialEq for ArrayBuffer<S> {
    /// Compares shape and contents, channel by channel.
    fn eq(&self, other: &Self) -> (equal: bool) {
        let same_rows = self.inner == other.inner;
        proof {
            if S::obeys_eq_spec() {
                let a = self.inner;
                let b = other.inner;
                assert(same_rows == a.eq_spec(&b));
                if a.eq_spec(&b) {
                    assert forall|c: int| 0 <= c < self@.len() implies {
                        &&& (#[trigger] self@[c]).len() == other@[c].len()
                        &&& forall|s: int|
                            #![trigger self@[c][s]]
                            0 <= s < self@[c].len() ==> self@[c][s].eq_spec(&other@[c][s])
                    } by {
                        assert(a[c].eq_spec(&b[c]));
                        assert forall|s: int| 0 <= s < self@[c].len() implies (
                        #[trigger] self@[c][s]).eq_spec(&other@[c][s]) by {
                            assert(a[c][s].eq_spec(&b[c][s]));
                        }
                    }
                }
                if self.samples == other.samples && same_samples(self, other) {
                    assert forall|c: int| 0 <= c < a.len() implies (#[trigger] a[c]).eq_spec(
                        &b[c],
                    ) by {
                        assert(self@[c].len() == other@[c].len());
                        assert forall|s: int| 0 <= s < a[c].len() implies (#[trigger] a[c][s]).eq_spec(
                            &b[c][s],
                        ) by {
                            assert(self@[c][s].eq_spec(&other@[c][s]));
                        }
                    }
                    assert(a.eq_spec(&b));
                }
            }
        }
        self.samples == other.samples && same_rows
    }
}

impl<S: PartialEq> vstd::std_specs::cmp::PartialEqSpecImpl for ArrayBuffer<S> {
    open spec fn obeys_eq_spec() -> bool {
        S::obeys_eq_spec()
    }

    open spec fn eq_spec(&self, other: &Self) -> bool {
        same_samples(self, other)
    }
}

impl<S> core::ops::Index<usize> for ArrayBuffer<S> {
    type Output = [S];

    /// The samples of one channel. The channel must exist.
    fn index(&self, index: usize) -> (row: &[S])
        ensures
            row@ == self@[index as int],
    {
        self.inner[index].as_slice()
    }
}

impl<S> vstd::std_specs::core::IndexSpecImpl<usize> for ArrayBuffer<S> {
    open spec fn index_req(&self, index: &usize) -> bool {
        *index < self@.len()
    }
}

impl<S: Eq> Eq for ArrayBuffer<S> {

}

} // verus!
