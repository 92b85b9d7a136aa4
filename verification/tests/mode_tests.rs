use pcm_auto_decoder::iec61937_detector::Iec61937Detector;
use pcm_auto_decoder::mode_machine::{ChunkRoute, Mode, ModeMachine};

#[test]
fn detector_handle_constructs() {
    let _d = Iec61937Detector::new();
}

#[test]
fn hit_preempts_miss_counter_from_unknown() {
    // detWindow = 3, starting Unknown: miss, miss, hit
    let mut m = ModeMachine::new(3);
    assert_eq!(m.mode, Mode::Unknown);
    assert_eq!(m.on_chunk(false), ChunkRoute::Discard);
    assert_eq!(m.on_chunk(false), ChunkRoute::Discard);
    assert_eq!(m.mode, Mode::Unknown);
    // the hit on the 3rd chunk wins over the two misses: Compressed, not Pcm
    assert_eq!(m.on_chunk(true), ChunkRoute::OpenDecoderThenWrite);
    assert_eq!(m.mode, Mode::Compressed);
    assert_eq!(m.miss_streak, 0);
}

#[test]
fn unknown_becomes_pcm_exactly_at_window() {
    // detWindow = 3, starting Unknown: miss, miss, miss
    let mut m = ModeMachine::new(3);
    assert_eq!(m.on_chunk(false), ChunkRoute::Discard);
    assert_eq!(m.mode, Mode::Unknown);
    assert_eq!(m.on_chunk(false), ChunkRoute::Discard);
    assert_eq!(m.mode, Mode::Unknown);
    // exactly the 3rd miss settles on Pcm, and the chunk goes to the PCM sink
    assert_eq!(m.on_chunk(false), ChunkRoute::ToPcm);
    assert_eq!(m.mode, Mode::Pcm);
}

#[test]
fn compressed_reverts_after_full_window_of_misses() {
    // in Compressed with detWindow = 2: hit, miss, miss
    let mut m = ModeMachine::new(2);
    assert_eq!(m.on_chunk(true), ChunkRoute::OpenDecoderThenWrite);
    assert_eq!(m.mode, Mode::Compressed);
    // first miss: stays Compressed, chunk still feeds the decoder
    assert_eq!(m.on_chunk(false), ChunkRoute::ToDecoder);
    assert_eq!(m.mode, Mode::Compressed);
    assert_eq!(m.miss_streak, 1);
    // second consecutive miss: close the session and fall back to Pcm
    assert_eq!(m.on_chunk(false), ChunkRoute::CloseDecoderThenPcm);
    assert_eq!(m.mode, Mode::Pcm);
    assert_eq!(m.miss_streak, 2);
}

#[test]
fn pcm_hit_enters_compressed_immediately() {
    // reach Pcm with a nonzero miss streak on the books
    let mut m = ModeMachine::new(2);
    assert_eq!(m.on_chunk(false), ChunkRoute::Discard);
    assert_eq!(m.on_chunk(false), ChunkRoute::ToPcm);
    assert_eq!(m.mode, Mode::Pcm);
    assert_eq!(m.miss_streak, 2);
    // a single hit switches at once, whatever the prior streak
    assert_eq!(m.on_chunk(true), ChunkRoute::OpenDecoderThenWrite);
    assert_eq!(m.mode, Mode::Compressed);
    assert_eq!(m.miss_streak, 0);
}

#[test]
fn pcm_misses_keep_forwarding_to_pcm() {
    let mut m = ModeMachine::new(1);
    assert_eq!(m.on_chunk(false), ChunkRoute::ToPcm);
    assert_eq!(m.mode, Mode::Pcm);
    for _ in 0..5 {
        assert_eq!(m.on_chunk(false), ChunkRoute::ToPcm);
        assert_eq!(m.mode, Mode::Pcm);
    }
}

#[test]
fn compressed_hits_keep_feeding_decoder() {
    let mut m = ModeMachine::new(4);
    assert_eq!(m.on_chunk(true), ChunkRoute::OpenDecoderThenWrite);
    assert_eq!(m.on_chunk(true), ChunkRoute::ToDecoder);
    // a miss inside the window still feeds the decoder to let it flush
    assert_eq!(m.on_chunk(false), ChunkRoute::ToDecoder);
    assert_eq!(m.miss_streak, 1);
    // and a hit resets the streak
    assert_eq!(m.on_chunk(true), ChunkRoute::ToDecoder);
    assert_eq!(m.miss_streak, 0);
    assert_eq!(m.mode, Mode::Compressed);
}
