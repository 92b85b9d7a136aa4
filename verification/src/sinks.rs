//! The sink capability: anything that accepts raw audio bytes and knows the
//! shape of the PCM it expects.

use vstd::prelude::*;
use crate::sample_spec::SampleSpec;

verus! {

/// A sink could not accept a write.
#[derive(Clone, Copy, Debug, PartialEq, Eq, Structural)]
pub struct SinkError;

/// Accepts raw audio bytes and knows its own sample spec.
///
/// Playback adapters around the library (a device connection, a file or
/// FIFO) implement this; the decoder bridge consumes one for the lifetime of
/// a decoding session. A write takes the whole buffer or fails; nothing is
/// promised of either outcome, the bridge copes with both. `specs` is
/// expected to be stable over the sink's lifetime.
pub trait AudioSink {
    fn write(&mut self, bytes: &[u8]) -> Result<(), SinkError>;

    fn specs(&self) -> SampleSpec;
}

} // verus!
