//! The decoder bridge's pump side.
//!
//! A bridge session wraps a destination sink while an external decoding
//! process runs. The pump repeatedly absorbs arbitrarily sized chunks of the
//! process's decoded output, forwards them to the wrapped sink realigned to
//! whole destination frames, and keeps the sub-frame remainder for the next
//! read. A single failed downstream write permanently stops forwarding while
//! the pump keeps draining the process, so the process can never stall on a
//! full output pipe; at end of stream a trailing remainder is zero-padded to
//! one whole frame for one last best-effort write. Closing the session hands
//! the wrapped sink back to the caller for reuse.

use vstd::prelude::*;
use crate::sample_spec::SampleSpec;
use crate::sinks::AudioSink;

verus! {

/// `n` zero bytes, as used to pad a trailing sub-frame remainder.
pub open spec fn zero_bytes(n: nat) -> Seq<u8> {
    Seq::new(n, |i: int| 0u8)
}

/// Errors of a decoder bridge session.
#[derive(Clone, Copy, Debug, PartialEq, Eq, Structural)]
pub enum BridgeError {
    /// The destination sink reported a malformed sample spec.
    InvalidSpec,
    /// The wrapped sink is gone: a decoded write failed during the session.
    SinkLost,
}

/// The pump state of one decoding session: the wrapped sink (while
/// forwarding is still active), the unaligned remainder of the decoded
/// output, and the destination frame size.
pub struct DecoderBridge<S: AudioSink> {
    sink: Option<S>,
    stash: Vec<u8>,
    spec: SampleSpec,
    frame_bytes: usize,
}

impl<S: AudioSink> DecoderBridge<S> {
    /// The wrapped destination sink, still held while forwarding is active.
    pub closed spec fn held_sink(self) -> Option<S> {
        self.sink
    }

    /// Decoded bytes not yet forming a whole frame, kept for the next read.
    pub closed spec fn pending(self) -> Seq<u8> {
        self.stash@
    }

    /// The destination sample spec, as the wrapped sink reported it.
    pub closed spec fn dest_spec(self) -> SampleSpec {
        self.spec
    }

    /// Bytes of one destination frame.
    pub closed spec fn dest_frame_bytes(self) -> int {
        self.frame_bytes as int
    }

    /// Session invariant: a well-formed destination spec, the frame size
    /// derived from it, and never a whole frame left pending.
    pub closed spec fn wf(self) -> bool {
        &&& self.spec.wf()
        &&& self.frame_bytes == self.spec.spec_frame_bytes()
        &&& self.frame_bytes >= 1
        &&& self.stash@.len() < self.frame_bytes
    }

    /// Start a session around `sink`, whose decoded output has shape `spec`.
    /// A malformed spec is a setup error: no session starts.
    pub fn open_with_spec(sink: S, spec: SampleSpec) -> (r: Result<DecoderBridge<S>, BridgeError>)
        ensures
            r is Ok <==> spec.wf(),
            !spec.wf() ==> r == Err::<DecoderBridge<S>, BridgeError>(BridgeError::InvalidSpec),
            (r matches Ok(b) ==> {
                &&& b.wf()
                &&& b.held_sink() == Some(sink)
                &&& b.pending() == Seq::<u8>::empty()
                &&& b.dest_spec() == spec
                &&& b.dest_frame_bytes() == spec.spec_frame_bytes()
            }),
    {
        if spec.is_valid() {
            let frame_bytes = spec.frame_bytes();
            Ok(DecoderBridge { sink: Some(sink), stash: Vec::new(), spec, frame_bytes })
        } else {
            Err(BridgeError::InvalidSpec)
        }
    }

    /// Start a session around `sink`, taking the destination shape from the
    /// sink itself; fails exactly when the sink reports a malformed spec.
    pub fn open(sink: S) -> (r: Result<DecoderBridge<S>, BridgeError>)
        ensures
            (r matches Ok(b) ==> {
                &&& b.wf()
                &&& b.held_sink() == Some(sink)
                &&& b.pending() == Seq::<u8>::empty()
                &&& b.dest_spec().wf()
                &&& b.dest_frame_bytes() == b.dest_spec().spec_frame_bytes()
            }),
            (r matches Err(e) ==> e == BridgeError::InvalidSpec),
    {
        let spec = sink.specs();
        Self::open_with_spec(sink, spec)
    }

    /// Take one chunk of the process's decoded output. The chunk joins the
    /// pending bytes; every whole destination frame now available is split
    /// off and returned for forwarding, and the sub-frame remainder stays
    /// pending. `None` means nothing is to be forwarded: no whole frame is
    /// ready, or forwarding has stopped (the aligned part is then dropped).
    pub fn absorb(&mut self, chunk: &[u8]) -> (ready: Option<Vec<u8>>)
        requires
            old(self).wf(),
        ensures
            final(self).wf(),
            final(self).held_sink() == old(self).held_sink(),
            final(self).dest_spec() == old(self).dest_spec(),
            final(self).dest_frame_bytes() == old(self).dest_frame_bytes(),
            ({
                let total = old(self).pending() + chunk@;
                let fb = old(self).dest_frame_bytes() as nat;
                let aligned = (total.len() - (total.len() % fb)) as int;
                &&& final(self).pending() == total.skip(aligned)
                &&& (match ready {
                    Some(v) => {
                        &&& old(self).held_sink() is Some
                        &&& aligned > 0
                        &&& v@ == total.take(aligned)
                        &&& v@.len() % fb == 0
                    },
                    None => old(self).held_sink() is None || aligned == 0,
                })
            }),
    {
        let mut i: usize = 0;
        while i < chunk.len()
            invariant
                old(self).wf(),
                i <= chunk@.len(),
                self.stash@ == old(self).stash@ + chunk@.take(i as int),
                self.sink == old(self).sink,
                self.spec == old(self).spec,
                self.frame_bytes == old(self).frame_bytes,
            decreases chunk@.len() - i,
        {
            self.stash.push(chunk[i]);
            i += 1;
        }
        proof {
            assert(chunk@.take(chunk@.len() as int) =~= chunk@);
        }
        let len = self.stash.len();
        let rem = len % self.frame_bytes;
        proof {
            assert(len % self.frame_bytes <= len) by (nonlinear_arith)
                requires
                    self.frame_bytes >= 1,
            ;
        }
        let aligned = len - rem;
        let ghost total = old(self).pending() + chunk@;
        proof {
            assert(self.stash@ == total);
        }
        let mut ready: Option<Vec<u8>> = None;
        if aligned > 0 {
            if self.sink.is_some() {
                let mut head: Vec<u8> = Vec::new();
                let mut j: usize = 0;
                while j < aligned
                    invariant
                        j <= aligned <= self.stash@.len(),
                        head@ == self.stash@.take(j as int),
                        self.stash@ == total,
                        self.sink == old(self).sink,
                        self.spec == old(self).spec,
                        self.frame_bytes == old(self).frame_bytes,
                    decreases aligned - j,
                {
                    let b = self.stash[j];
                    head.push(b);
                    j += 1;
                }
                ready = Some(head);
            }
            let mut rest: Vec<u8> = Vec::new();
            let mut k: usize = aligned;
            while k < len
                invariant
                    aligned <= k <= len,
                    len == self.stash@.len(),
                    rest@ == self.stash@.subrange(aligned as int, k as int),
                    self.stash@ == total,
                    self.sink == old(self).sink,
                    self.spec == old(self).spec,
                    self.frame_bytes == old(self).frame_bytes,
                decreases len - k,
            {
                let b = self.stash[k];
                rest.push(b);
                k += 1;
            }
            proof {
                assert(rest@ =~= total.skip(aligned as int));
            }
            self.stash = rest;
        } else {
            proof {
                assert(self.stash@ =~= total.skip(aligned as int));
            }
        }
        proof {
            let fbn = self.frame_bytes as int;
            let tl = total.len() as int;
            assert((tl - tl % fbn) % fbn == 0) by (nonlinear_arith)
                requires
                    fbn >= 1,
            ;
        }
        ready
    }

    /// Forward one aligned block to the wrapped sink. A failed write stops
    /// forwarding for good: the sink is dropped, later blocks are discarded,
    /// and the pump keeps draining the process so it cannot stall.
    pub fn deliver(&mut self, block: &Vec<u8>)
        requires
            old(self).wf(),
        ensures
            final(self).wf(),
            final(self).pending() == old(self).pending(),
            final(self).dest_spec() == old(self).dest_spec(),
            final(self).dest_frame_bytes() == old(self).dest_frame_bytes(),
            old(self).held_sink() is None ==> final(self).held_sink() is None,
    {
        let failed = match &mut self.sink {
            Some(w) => w.write(block.as_slice()).is_err(),
            None => false,
        };
        if failed {
            self.sink = None;
        }
    }

    /// One pump iteration: absorb a chunk of process output and forward
    /// whatever whole frames it completed.
    pub fn pump_chunk(&mut self, chunk: &[u8])
        requires
            old(self).wf(),
        ensures
            final(self).wf(),
            final(self).dest_spec() == old(self).dest_spec(),
            final(self).dest_frame_bytes() == old(self).dest_frame_bytes(),
            ({
                let total = old(self).pending() + chunk@;
                let fb = old(self).dest_frame_bytes() as nat;
                final(self).pending() == total.skip((total.len() - (total.len() % fb)) as int)
            }),
            old(self).held_sink() is None ==> final(self).held_sink() is None,
    {
        let ready = self.absorb(chunk);
        if let Some(block) = ready {
            self.deliver(&block);
        }
    }

    /// Remove the pending remainder, zero-padded to one whole destination
    /// frame, for the final best-effort write; `None` when nothing is
    /// pending or forwarding already stopped.
    pub fn flush_tail(&mut self) -> (tail: Option<Vec<u8>>)
        requires
            old(self).wf(),
        ensures
            final(self).wf(),
            final(self).held_sink() == old(self).held_sink(),
            final(self).dest_spec() == old(self).dest_spec(),
            final(self).dest_frame_bytes() == old(self).dest_frame_bytes(),
            final(self).pending() == Seq::<u8>::empty(),
            (match tail {
                Some(v) => {
                    &&& old(self).held_sink() is Some
                    &&& old(self).pending().len() > 0
                    &&& v@ == old(self).pending() + zero_bytes(
                        (old(self).dest_frame_bytes() - old(self).pending().len()) as nat,
                    )
                    &&& v@.len() == old(self).dest_frame_bytes()
                },
                None => old(self).held_sink() is None || old(self).pending().len() == 0,
            }),
    {
        let len = self.stash.len();
        if len == 0 {
            proof {
                assert(self.stash@ =~= Seq::<u8>::empty());
            }
            return None;
        }
        let pad = self.frame_bytes - len;
        let mut block: Vec<u8> = Vec::new();
        let mut j: usize = 0;
        while j < len
            invariant
                j <= len,
                len == self.stash@.len(),
                block@ == self.stash@.take(j as int),
                self.stash@ == old(self).stash@,
                self.sink == old(self).sink,
                self.spec == old(self).spec,
                self.frame_bytes == old(self).frame_bytes,
            decreases len - j,
        {
            let b = self.stash[j];
            block.push(b);
            j += 1;
        }
        let mut k: usize = 0;
        while k < pad
            invariant
                k <= pad,
                pad == self.frame_bytes - self.stash@.len(),
                block@ == self.stash@ + zero_bytes(k as nat),
                self.stash@ == old(self).stash@,
                self.sink == old(self).sink,
                self.spec == old(self).spec,
                self.frame_bytes == old(self).frame_bytes,
            decreases pad - k,
        {
            block.push(0u8);
            proof {
                assert(block@ =~= self.stash@ + zero_bytes((k + 1) as nat));
            }
            k += 1;
        }
        self.stash = Vec::new();
        if self.sink.is_some() {
            Some(block)
        } else {
            None
        }
    }

    /// End of the process's output stream: if a sub-frame remainder is
    /// pending, pad it with zero bytes to one whole frame and attempt one
    /// last write; its failure is ignored, the session is ending anyway.
    pub fn pump_finish(&mut self)
        requires
            old(self).wf(),
        ensures
            final(self).wf(),
            final(self).dest_spec() == old(self).dest_spec(),
            final(self).dest_frame_bytes() == old(self).dest_frame_bytes(),
            final(self).pending() == Seq::<u8>::empty(),
            (final(self).held_sink() is Some) == (old(self).held_sink() is Some),
    {
        let tail = self.flush_tail();
        if let Some(block) = tail {
            self.deliver_last(&block);
        }
    }

    /// The final write of a session: errors are ignored and forwarding is
    /// not torn down, since nothing follows.
    fn deliver_last(&mut self, block: &Vec<u8>)
        requires
            old(self).wf(),
        ensures
            final(self).wf(),
            final(self).pending() == old(self).pending(),
            final(self).dest_spec() == old(self).dest_spec(),
            final(self).dest_frame_bytes() == old(self).dest_frame_bytes(),
            (final(self).held_sink() is Some) == (old(self).held_sink() is Some),
    {
        match &mut self.sink {
            Some(w) => {
                let _ = w.write(block.as_slice());
            },
            None => {},
        }
    }

    /// Close the session and hand the wrapped sink back for reuse in a later
    /// session. Fails exactly when forwarding was lost to a failed write.
    pub fn finish(self) -> (r: Result<S, BridgeError>)
        ensures
            (self.held_sink() matches Some(s) ==> r == Ok::<S, BridgeError>(s)),
            self.held_sink() is None ==> r == Err::<S, BridgeError>(BridgeError::SinkLost),
    {
        match self.sink {
            Some(s) => Ok(s),
            None => Err(BridgeError::SinkLost),
        }
    }

    /// Whether decoded output is still being forwarded to the wrapped sink.
    pub fn is_active(&self) -> (b: bool)
        ensures
            b == (self.held_sink() is Some),
    {
        self.sink.is_some()
    }

    /// The destination sample spec of this session.
    pub fn specs(&self) -> (s: SampleSpec)
        ensures
            s == self.dest_spec(),
    {
        self.spec
    }
}

} // verus!
