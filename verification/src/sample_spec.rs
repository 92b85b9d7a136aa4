//! Shape of a PCM signal: sample format, rate and channel count, with the
//! derived per-sample and per-frame byte widths.

use vstd::prelude::*;

verus! {

/// The fixed set of supported PCM sample encodings.
#[derive(Clone, Copy, Debug, PartialEq, Eq, Structural)]
pub enum SampleFormat {
    S16le,
    S16be,
    S24le,
    S24be,
    S32le,
    S32be,
    F32le,
    F32be,
}

impl SampleFormat {
    /// Byte width of one sample in this encoding.
    pub open spec fn spec_bytes_per_sample(self) -> usize {
        match self {
            SampleFormat::S16le => 2usize,
            SampleFormat::S16be => 2usize,
            SampleFormat::S24le => 3usize,
            SampleFormat::S24be => 3usize,
            SampleFormat::S32le => 4usize,
            SampleFormat::S32be => 4usize,
            SampleFormat::F32le => 4usize,
            SampleFormat::F32be => 4usize,
        }
    }

    pub fn bytes_per_sample(self) -> (n: usize)
        ensures
            n == self.spec_bytes_per_sample(),
            2 <= n <= 4,
    {
        match self {
            SampleFormat::S16le => 2,
            SampleFormat::S16be => 2,
            SampleFormat::S24le => 3,
            SampleFormat::S24be => 3,
            SampleFormat::S32le => 4,
            SampleFormat::S32be => 4,
            SampleFormat::F32le => 4,
            SampleFormat::F32be => 4,
        }
    }
}

/// Shape of a PCM stream. A spec is well formed when it has at least one
/// channel and a positive sample rate.
#[derive(Clone, Copy, Debug, PartialEq, Eq, Structural)]
pub struct SampleSpec {
    pub format: SampleFormat,
    pub rate: u32,
    pub channels: u8,
}

impl SampleSpec {
    pub open spec fn wf(self) -> bool {
        &&& self.channels >= 1
        &&& self.rate >= 1
    }

    /// Bytes in one frame (one sample per channel).
    pub open spec fn spec_frame_bytes(self) -> int {
        self.channels * self.spec_bytes_per_sample()
    }

    pub open spec fn spec_bytes_per_sample(self) -> usize {
        self.format.spec_bytes_per_sample()
    }

    pub fn new(format: SampleFormat, rate: u32, channels: u8) -> (s: SampleSpec)
        ensures
            s == (SampleSpec { format, rate, channels }),
    {
        SampleSpec { format, rate, channels }
    }

    pub fn is_valid(&self) -> (b: bool)
        ensures
            b == self.wf(),
    {
        self.channels >= 1 && self.rate >= 1
    }

    pub fn frame_bytes(&self) -> (n: usize)
        ensures
            n == self.spec_frame_bytes(),
            self.wf() ==> n >= 2,
    {
        (self.channels as usize) * self.format.bytes_per_sample()
    }
}

} // verus!
