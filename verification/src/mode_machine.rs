//! Hysteretic classification of the input stream.
//!
//! Chunk by chunk the control loop reports whether the detector saw an
//! IEC 61937 preamble, and the machine decides whether the stream is still
//! unclassified, plain PCM, or a compressed bitstream, and where the chunk
//! must go. Entering `Compressed` is immediate on a single detection, so no
//! compressed frame ever leaks to a PCM sink; leaving it takes a full window
//! of consecutive chunks without a preamble, since compressed streams may
//! legitimately pause between bursts.

use vstd::prelude::*;

verus! {

/// Classification of the input stream.
#[derive(Clone, Copy, Debug, PartialEq, Eq, Structural)]
pub enum Mode {
    Unknown,
    Pcm,
    Compressed,
}

/// What the control loop must do with the chunk it just classified.
#[derive(Clone, Copy, Debug, PartialEq, Eq, Structural)]
pub enum ChunkRoute {
    /// Still unclassified: the chunk goes nowhere.
    Discard,
    /// Forward the chunk to the plain PCM sink.
    ToPcm,
    /// Forward the chunk to the open decoder session.
    ToDecoder,
    /// Open a decoder session, then forward the chunk to it.
    OpenDecoderThenWrite,
    /// Close the decoder session, recovering its sink, then forward the
    /// chunk to the plain PCM sink.
    CloseDecoderThenPcm,
}

/// The mode state machine: current mode, the count of consecutive chunks
/// without a detected preamble, and the hysteresis window.
#[derive(Clone, Copy, Debug, PartialEq, Eq, Structural)]
pub struct ModeMachine {
    pub mode: Mode,
    pub miss_streak: usize,
    pub det_window: usize,
}

impl ModeMachine {
    /// The window is positive, and the streak never passes it; while the
    /// machine may still revert on a miss, the streak is strictly below it.
    pub open spec fn wf(self) -> bool {
        &&& self.det_window >= 1
        &&& self.miss_streak <= self.det_window
        &&& (self.mode is Unknown || self.mode is Compressed) ==> self.miss_streak
            < self.det_window
    }

    /// The transition table: next state and chunk routing for one
    /// classified chunk.
    pub open spec fn spec_step(self, detected: bool) -> (ModeMachine, ChunkRoute) {
        if detected {
            (
                ModeMachine {
                    mode: Mode::Compressed,
                    miss_streak: 0usize,
                    det_window: self.det_window,
                },
                if self.mode is Compressed {
                    ChunkRoute::ToDecoder
                } else {
                    ChunkRoute::OpenDecoderThenWrite
                },
            )
        } else {
            match self.mode {
                Mode::Unknown => {
                    let streak = (self.miss_streak + 1) as usize;
                    if streak >= self.det_window {
                        (
                            ModeMachine {
                                mode: Mode::Pcm,
                                miss_streak: streak,
                                det_window: self.det_window,
                            },
                            ChunkRoute::ToPcm,
                        )
                    } else {
                        (
                            ModeMachine {
                                mode: Mode::Unknown,
                                miss_streak: streak,
                                det_window: self.det_window,
                            },
                            ChunkRoute::Discard,
                        )
                    }
                },
                Mode::Pcm => (self, ChunkRoute::ToPcm),
                Mode::Compressed => {
                    let streak = (self.miss_streak + 1) as usize;
                    if streak >= self.det_window {
                        (
                            ModeMachine {
                                mode: Mode::Pcm,
                                miss_streak: streak,
                                det_window: self.det_window,
                            },
                            ChunkRoute::CloseDecoderThenPcm,
                        )
                    } else {
                        (
                            ModeMachine {
                                mode: Mode::Compressed,
                                miss_streak: streak,
                                det_window: self.det_window,
                            },
                            ChunkRoute::ToDecoder,
                        )
                    }
                },
            }
        }
    }

    /// A fresh machine: unclassified, no misses seen yet.
    pub fn new(det_window: usize) -> (m: ModeMachine)
        requires
            det_window >= 1,
        ensures
            m == (ModeMachine { mode: Mode::Unknown, miss_streak: 0usize, det_window }),
            m.wf(),
    {
        ModeMachine { mode: Mode::Unknown, miss_streak: 0, det_window }
    }

    /// Feed one chunk's classification and learn where the chunk goes.
    pub fn on_chunk(&mut self, detected: bool) -> (route: ChunkRoute)
        requires
            old(self).wf(),
        ensures
            final(self).wf(),
            (*final(self), route) == old(self).spec_step(detected),
    {
        if detected {
            let route = if matches!(self.mode, Mode::Compressed) {
                ChunkRoute::ToDecoder
            } else {
                ChunkRoute::OpenDecoderThenWrite
            };
            self.mode = Mode::Compressed;
            self.miss_streak = 0;
            route
        } else {
            match self.mode {
                Mode::Unknown => {
                    self.miss_streak = self.miss_streak + 1;
                    if self.miss_streak >= self.det_window {
                        self.mode = Mode::Pcm;
                        ChunkRoute::ToPcm
                    } else {
                        ChunkRoute::Discard
                    }
                },
                Mode::Pcm => ChunkRoute::ToPcm,
                Mode::Compressed => {
                    self.miss_streak = self.miss_streak + 1;
                    if self.miss_streak >= self.det_window {
                        self.mode = Mode::Pcm;
                        ChunkRoute::CloseDecoderThenPcm
                    } else {
                        ChunkRoute::ToDecoder
                    }
                },
            }
        }
    }
}

/// The machine after `n` further consecutive chunks without a preamble.
pub open spec fn spec_run_misses(m: ModeMachine, n: nat) -> ModeMachine
    decreases n,
{
    if n == 0 {
        m
    } else {
        spec_run_misses(m, (n - 1) as nat).spec_step(false).0
    }
}

/// A single detected preamble always wins over any accumulated miss streak:
/// whatever the mode and streak, the machine is in `Compressed` with a fresh
/// streak right after the hit, and any mode but `Compressed` opens a decoder
/// session for the chunk.
pub proof fn lemma_detection_preempts_misses(m: ModeMachine)
    ensures
        m.spec_step(true).0.mode is Compressed,
        m.spec_step(true).0.miss_streak == 0,
        !(m.mode is Compressed) ==> m.spec_step(true).1 is OpenDecoderThenWrite,
        m.mode is Compressed ==> m.spec_step(true).1 is ToDecoder,
{
}

/// Leaving `Unknown` or `Compressed` on silence alone is exact: the machine
/// holds its mode until the miss streak reaches the window, and settles on
/// `Pcm` at that chunk and ever after.
pub proof fn lemma_sustained_absence_reverts_at_window(m: ModeMachine, n: nat)
    requires
        m.wf(),
        m.mode is Unknown || m.mode is Compressed,
    ensures
        spec_run_misses(m, n).det_window == m.det_window,
        spec_run_misses(m, n).miss_streak == if m.miss_streak + n >= m.det_window {
            m.det_window as int
        } else {
            m.miss_streak + n
        },
        spec_run_misses(m, n).mode == if m.miss_streak + n >= m.det_window {
            Mode::Pcm
        } else {
            m.mode
        },
    decreases n,
{
    if n > 0 {
        lemma_sustained_absence_reverts_at_window(m, (n - 1) as nat);
    }
}

} // verus!
