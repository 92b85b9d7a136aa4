//! Detection and routing engine for an audio path that tells raw PCM from a
//! compressed bitstream wrapped in the IEC 61937 transport: a bit-level
//! preamble detector, a hysteretic mode state machine deciding chunk by chunk
//! where the stream goes, and the frame-realigning pump of a decoder bridge
//! around an external decoding process.

pub mod decoder_bridge;
pub mod iec61937_detector;
pub mod mode_machine;
pub mod sample_spec;
pub mod sinks;
