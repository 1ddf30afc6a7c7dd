//! Bounds-checked views over a channel-major block of audio samples.
//!
//! A block holds `channels` runs of `samples` samples each, one run per
//! channel, channel 0 first. A sample is carried as the bit pattern of an
//! IEEE 754 single-precision number (`f32::to_bits`); the all-zero pattern
//! is `+0.0`, silence.

use vstd::prelude::*;
use vstd::slice::slice_subrange;

verus! {

/// The bit pattern of a silent sample.
pub const SILENCE: u32 = 0;

/// The samples of one channel of a channel-major block.
pub open spec fn channel_of(block: Seq<u32>, samples: nat, channel: int) -> Seq<u32> {
    block.subrange(channel * samples, (channel + 1) * samples)
}

/// A channel-major block as one sequence of samples per channel.
pub open spec fn channels_of(block: Seq<u32>, channels: nat, samples: nat) -> Seq<Seq<u32>> {
    Seq::new(channels, |channel: int| channel_of(block, samples, channel))
}

/// A channel of `samples` silent samples.
pub open spec fn silent_channel(samples: nat) -> Seq<u32> {
    Seq::new(samples, |i: int| SILENCE)
}

/// The buffer with every channel silenced and no channel resized.
pub open spec fn cleared(buffer: Seq<Seq<u32>>) -> Seq<Seq<u32>> {
    Seq::new(buffer.len(), |channel: int| silent_channel(buffer[channel].len()))
}

/// The block with the run of `channel` replaced by `run`.
pub open spec fn with_channel(
    block: Seq<u32>,
    samples: nat,
    channel: int,
    run: Seq<u32>,
) -> Seq<u32> {
    let start = channel * samples;
    let end = (channel + 1) * samples;
    block.subrange(0, start) + run + block.subrange(end, block.len() as int)
}

/// The run of channel `channel` is `samples` long and lies inside a block of
/// `channels * samples` samples.
proof fn lemma_channel_bounds(channels: nat, samples: nat, channel: nat)
    requires
        channel < channels,
    ensures
        0 <= channel * samples,
        channel * samples + samples == (channel + 1) * samples,
        (channel + 1) * samples <= channels * samples,
{
    assert(0 <= channel * samples) by (nonlinear_arith);
    assert(channel * samples + samples == (channel + 1) * samples) by (nonlinear_arith);
    assert((channel + 1) * samples <= channels * samples) by (nonlinear_arith)
        requires
            channel + 1 <= channels,
    ;
}

/// Every channel of a well-sized block has `samples` samples.
proof fn lemma_channel_len(block: Seq<u32>, channels: nat, samples: nat, channel: int)
    requires
        block.len() == channels * samples,
        0 <= channel < channels,
    ensures
        channel_of(block, samples, channel).len() == samples,
{
    lemma_channel_bounds(channels, samples, channel as nat);
}

/// Replacing the run of one channel in the block changes that channel of the
/// buffer and no other.
proof fn lemma_with_channel(
    block: Seq<u32>,
    channels: nat,
    samples: nat,
    channel: int,
    run: Seq<u32>,
)
    requires
        block.len() == channels * samples,
        0 <= channel < channels,
        run.len() == samples,
    ensures
        with_channel(block, samples, channel, run).len() == block.len(),
        channels_of(with_channel(block, samples, channel, run), channels, samples) == channels_of(
            block,
            channels,
            samples,
        ).update(channel, run),
{
    let replaced = with_channel(block, samples, channel, run);
    lemma_channel_bounds(channels, samples, channel as nat);
    let before = channels_of(block, channels, samples).update(channel, run);
    let after = channels_of(replaced, channels, samples);
    assert forall|other: int| 0 <= other < channels implies #[trigger] after[other]
        == before[other] by {
        lemma_channel_bounds(channels, samples, other as nat);
        if other < channel {
            assert((other + 1) * samples <= channel * samples) by (nonlinear_arith)
                requires
                    other + 1 <= channel,
                    0 <= samples,
            ;
        } else if other > channel {
            assert((channel + 1) * samples <= other * samples) by (nonlinear_arith)
                requires
                    channel + 1 <= other,
                    0 <= samples,
            ;
        }
        assert(after[other] =~= before[other]);
    }
    assert(after =~= before);
}

/// A block of silent samples is a buffer of silent channels.
proof fn lemma_silent_block(block: Seq<u32>, channels: nat, samples: nat)
    requires
        block.len() == channels * samples,
        forall|i: int| 0 <= i < block.len() ==> block[i] == SILENCE,
    ensures
        channels_of(block, channels, samples) == Seq::new(
            channels,
            |channel: int| silent_channel(samples),
        ),
{
    let buffer = channels_of(block, channels, samples);
    let silent = Seq::new(channels, |channel: int| silent_channel(samples));
    assert forall|channel: int| 0 <= channel < channels implies #[trigger] buffer[channel]
        == silent[channel] by {
        lemma_channel_bounds(channels, samples, channel as nat);
        assert(buffer[channel] =~= silent[channel]);
    }
    assert(buffer =~= silent);
}

/// After a buffer is cleared, every channel reads as silence of the length it
/// had before.
pub proof fn lemma_cleared_reads_silent(buffer: Seq<Seq<u32>>, channel: int)
    requires
        0 <= channel < buffer.len(),
    ensures
        cleared(buffer).len() == buffer.len(),
        cleared(buffer)[channel].len() == buffer[channel].len(),
        forall|i: int|
            0 <= i < buffer[channel].len() ==> #[trigger] cleared(buffer)[channel][i] == SILENCE,
{
}

/// A multi-channel buffer of read-only audio samples.
pub struct InputAudioSampleBuffer<'a> {
    block: &'a [u32],
    channels: usize,
    samples: usize,
}

impl<'a> InputAudioSampleBuffer<'a> {
    #[verifier::type_invariant]
    spec fn well_formed(self) -> bool {
        self.block@.len() == self.channels * self.samples
    }

    /// The samples of the buffer, one sequence per channel.
    pub closed spec fn view(&self) -> Seq<Seq<u32>> {
        channels_of(self.block@, self.channels as nat, self.samples as nat)
    }

    /// The number of channels, as a specification.
    pub closed spec fn spec_channels(&self) -> usize {
        self.channels
    }

    /// The number of samples per channel, as a specification.
    pub closed spec fn spec_samples(&self) -> usize {
        self.samples
    }

    /// A view over `block`, read as `channels` runs of `samples` samples.
    /// There is a view exactly when the block holds `channels * samples`
    /// samples.
    pub fn new(block: &'a [u32], channels: usize, samples: usize) -> (buffer: Option<Self>)
        ensures
            buffer is Some <==> block@.len() == channels * samples,
            buffer matches Some(b) ==> {
                &&& b@ == channels_of(block@, channels as nat, samples as nat)
                &&& b.spec_channels() == channels
                &&& b.spec_samples() == samples
            },
    {
        let len: usize = block.len();
        match channels.checked_mul(samples) {
            Some(product) => {
                if len == product {
                    Some(InputAudioSampleBuffer { block, channels, samples })
                } else {
                    None
                }
            },
            None => None,
        }
    }

    /// Returns the numbers of channels in the buffer.
    #[verifier::when_used_as_spec(spec_channels)]
    pub fn channels(&self) -> (channels: usize)
        ensures
            channels == self.spec_channels(),
            channels == self@.len(),
    {
        self.channels
    }

    /// Returns the number of samples for each channel.
    #[verifier::when_used_as_spec(spec_samples)]
    pub fn samples(&self) -> (samples: usize)
        ensures
            samples == self.spec_samples(),
            forall|channel: int|
                0 <= channel < self@.len() ==> (#[trigger] self@[channel]).len() == samples,
    {
        proof {
            use_type_invariant(self);
            assert forall|channel: int| 0 <= channel < self@.len() implies (
            #[trigger] self@[channel]).len() == self.samples by {
                lemma_channel_len(
                    self.block@,
                    self.channels as nat,
                    self.samples as nat,
                    channel,
                );
            }
        }
        self.samples
    }

    /// The samples of one channel: exactly `samples()` of them.
    pub fn channel(&self, channel: usize) -> (run: &[u32])
        requires
            channel < self.channels(),
        ensures
            run@ == self@[channel as int],
            run@.len() == self.samples(),
    {
        proof {
            use_type_invariant(self);
            lemma_channel_bounds(self.channels as nat, self.samples as nat, channel as nat);
        }
        let len: usize = self.block.len();
        let start: usize = channel * self.samples;
        slice_subrange(self.block, start, start + self.samples)
    }
}

/// The part of `block` from `start` up to `end`, for writing: the range form
/// of `IndexMut` on `Vec`. The run has the length of the range and starts out
/// with the samples found there; a write through it changes that part of the
/// block and nothing else, and cannot change the run's length.
#[verifier::external_body]
fn subrange_mut(block: &mut Vec<u32>, start: usize, end: usize) -> (run: &mut [u32])
    requires
        start <= end <= old(block)@.len(),
    ensures
        run@ == old(block)@.subrange(start as int, end as int),
        final(run)@.len() == run@.len(),
        final(block)@ == old(block)@.subrange(0, start as int) + final(run)@
            + old(block)@.subrange(end as int, old(block)@.len() as int),
    no_unwind
{
    &mut block[start..end]
}

/// A multi-channel buffer of read-write audio samples.
///
/// The buffer holds its block for as long as it is written to, and gives it
/// back with [`OutputAudioSampleBuffer::into_block`].
pub struct OutputAudioSampleBuffer {
    block: Vec<u32>,
    channels: usize,
    samples: usize,
}

impl OutputAudioSampleBuffer {
    #[verifier::type_invariant]
    spec fn well_formed(self) -> bool {
        self.block@.len() == self.channels * self.samples
    }

    /// The samples of the buffer, one sequence per channel.
    pub closed spec fn view(&self) -> Seq<Seq<u32>> {
        channels_of(self.block@, self.channels as nat, self.samples as nat)
    }

    /// The number of channels, as a specification.
    pub closed spec fn spec_channels(&self) -> usize {
        self.channels
    }

    /// The number of samples per channel, as a specification.
    pub closed spec fn spec_samples(&self) -> usize {
        self.samples
    }

    /// A buffer over `block`, read as `channels` runs of `samples` samples.
    /// There is a buffer exactly when the block holds `channels * samples`
    /// samples.
    pub fn new(block: Vec<u32>, channels: usize, samples: usize) -> (buffer: Option<Self>)
        ensures
            buffer is Some <==> block@.len() == channels * samples,
            buffer matches Some(b) ==> {
                &&& b@ == channels_of(block@, channels as nat, samples as nat)
                &&& b.spec_channels() == channels
                &&& b.spec_samples() == samples
            },
    {
        let len: usize = block.len();
        match channels.checked_mul(samples) {
            Some(product) => {
                if len == product {
                    Some(OutputAudioSampleBuffer { block, channels, samples })
                } else {
                    None
                }
            },
            None => None,
        }
    }

    /// Gives the block back: `channels() * samples()` samples, channel-major,
    /// as the buffer last held them.
    pub fn into_block(self) -> (block: Vec<u32>)
        ensures
            block@.len() == self.spec_channels() * self.spec_samples(),
            channels_of(block@, self.spec_channels() as nat, self.spec_samples() as nat) == self@,
    {
        proof {
            use_type_invariant(&self);
        }
        self.block
    }

    /// Returns the numbers of channels in the buffer.
    #[verifier::when_used_as_spec(spec_channels)]
    pub fn channels(&self) -> (channels: usize)
        ensures
            channels == self.spec_channels(),
            channels == self@.len(),
    {
        self.channels
    }

    /// Returns the number of samples for each channel.
    #[verifier::when_used_as_spec(spec_samples)]
    pub fn samples(&self) -> (samples: usize)
        ensures
            samples == self.spec_samples(),
            forall|channel: int|
                0 <= channel < self@.len() ==> (#[trigger] self@[channel]).len() == samples,
    {
        proof {
            use_type_invariant(self);
            assert forall|channel: int| 0 <= channel < self@.len() implies (
            #[trigger] self@[channel]).len() == self.samples by {
                lemma_channel_len(
                    self.block@,
                    self.channels as nat,
                    self.samples as nat,
                    channel,
                );
            }
        }
        self.samples
    }

    /// Clear all the samples for all the channels.
    pub fn clear(&mut self)
        ensures
            final(self)@ == cleared(old(self)@),
            final(self).spec_channels() == old(self).spec_channels(),
            final(self).spec_samples() == old(self).spec_samples(),
    {
        proof {
            use_type_invariant(&*self);
        }
        let len: usize = self.block.len();
        let mut i: usize = 0;
        while i < len
            invariant
                i <= len,
                len == self.block@.len(),
                self.channels == old(self).channels,
                self.samples == old(self).samples,
                self.block@.len() == self.channels * self.samples,
                forall|j: int| 0 <= j < i ==> self.block@[j] == SILENCE,
            decreases len - i,
        {
            self.block[i] = SILENCE;
            i = i + 1;
        }
        proof {
            lemma_silent_block(self.block@, self.channels as nat, self.samples as nat);
            assert forall|channel: int| 0 <= channel < old(self)@.len() implies (
            #[trigger] old(self)@[channel]).len() == self.samples by {
                lemma_channel_len(
                    old(self).block@,
                    self.channels as nat,
                    self.samples as nat,
                    channel,
                );
            }
            assert(self@ =~= cleared(old(self)@));
        }
    }

    /// The samples of one channel: exactly `samples()` of them.
    pub fn channel(&self, channel: usize) -> (run: &[u32])
        requires
            channel < self.channels(),
        ensures
            run@ == self@[channel as int],
            run@.len() == self.samples(),
    {
        proof {
            use_type_invariant(self);
            lemma_channel_bounds(self.channels as nat, self.samples as nat, channel as nat);
        }
        let len: usize = self.block.len();
        let start: usize = channel * self.samples;
        slice_subrange(self.block.as_slice(), start, start + self.samples)
    }

    /// The samples of one channel, for writing: exactly `samples()` of them.
    /// What is written through the run becomes that channel of the buffer;
    /// the other channels, and the shape of the buffer, stay as they are.
    pub fn channel_mut(&mut self, channel: usize) -> (run: &mut [u32])
        requires
            channel < old(self).channels(),
        ensures
            run@ == old(self)@[channel as int],
            run@.len() == old(self).samples(),
            final(run)@.len() == old(self).samples(),
            final(self)@ == old(self)@.update(channel as int, final(run)@),
            final(self).spec_channels() == old(self).spec_channels(),
            final(self).spec_samples() == old(self).spec_samples(),
    {
        proof {
            use_type_invariant(&*self);
            lemma_channel_bounds(self.channels as nat, self.samples as nat, channel as nat);
        }
        let ghost block = self.block@;
        let ghost channels = self.channels as nat;
        let ghost samples = self.samples as nat;
        let len: usize = self.block.len();
        let start: usize = channel * self.samples;
        let end: usize = start + self.samples;
        let run = subrange_mut(&mut self.block, start, end);
        proof {
            lemma_with_channel(block, channels, samples, channel as int, final(run)@);
        }
        run
    }
}

} // verus!
