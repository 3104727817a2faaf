use sendspin_cli::engine::PlaybackControl;
use sendspin_cli::protocol::LegacyPlayerState;
use sendspin_cli::format::Codec;
use sendspin_cli::session::{map_server_command, Session};

const NOW: i64 = 50_000_000;

fn pcm_chunk(frames: u32) -> Vec<u8> {
    // 16-bit stereo: 4 bytes per frame.
    vec![0u8; (frames * 4) as usize]
}

#[test]
fn test_stream_start_rejects_bit_depth_32() {
    // No crash, no decoder bound, no chunks processed.
    let mut session = Session::new(20);
    let r = session.handle_stream_start(&"pcm".to_owned(), 48000, 2, 32);
    assert!(r.is_err());
    assert!(session.format.is_none());
    assert!(session.decoder.is_none());
    assert!(session.handle_chunk(0, &pcm_chunk(10), NOW).is_none());
}

#[test]
fn test_stream_start_rejects_unknown_codec() {
    let mut session = Session::new(20);
    let r = session.handle_stream_start(&"opus".to_owned(), 48000, 2, 16);
    assert!(r.is_err());
    assert!(session.handle_chunk(0, &pcm_chunk(10), NOW).is_none());
}

#[test]
fn test_stream_start_binds_16_and_24_bit() {
    for bit_depth in [16u8, 24u8] {
        let mut session = Session::new(20);
        let f = session.handle_stream_start(&"pcm".to_owned(), 48000, 2, bit_depth).unwrap();
        assert_eq!(f.codec, Codec::Pcm);
        assert_eq!(f.bit_depth, bit_depth);
        // Chunks now produce play_at-scheduled buffers.
        let bytes_per_frame = 2 * (bit_depth as u32 / 8);
        let data = vec![0u8; (48 * bytes_per_frame) as usize];
        let buffer = session.handle_chunk(7, &data, NOW).unwrap();
        assert_eq!(buffer.timestamp, 7);
        assert_eq!(buffer.format.bit_depth, bit_depth);
        // No clock sync: fallback schedules at now + buffer latency.
        assert_eq!(buffer.play_at, NOW + 20_000);
        assert!(session.decoder.is_some());
    }
}

#[test]
fn test_fallback_scheduling_is_contiguous() {
    // With no clock sync established, three chunks of durations d1, d2,
    // d3 receive play_at = pt, pt + d1, pt + d1 + d2, where pt is the
    // first enqueue instant plus the buffer latency.
    let mut session = Session::new(20);
    session.handle_stream_start(&"pcm".to_owned(), 48000, 2, 16).unwrap();
    // 48 frames at 48kHz = 1ms; 96 frames = 2ms; 144 frames = 3ms.
    let b1 = session.handle_chunk(1, &pcm_chunk(48), NOW).unwrap();
    let b2 = session.handle_chunk(2, &pcm_chunk(96), NOW + 123).unwrap();
    let b3 = session.handle_chunk(3, &pcm_chunk(144), NOW + 456).unwrap();
    let pt = NOW + 20_000;
    assert_eq!(b1.play_at, pt);
    assert_eq!(b2.play_at, pt + 1_000);
    assert_eq!(b3.play_at, pt + 1_000 + 2_000);
}

#[test]
fn test_translated_timestamp_is_authoritative() {
    let mut session = Session::new(20);
    session.handle_stream_start(&"pcm".to_owned(), 48000, 2, 16).unwrap();
    // Establish sync: offset = ((80 - 0) + (80 - 0)) / 2 = 80.
    session.handle_time_reply(0, 80, 80, 0);
    let b = session.handle_chunk(NOW + 500_080, &pcm_chunk(48), NOW).unwrap();
    assert_eq!(b.play_at, NOW + 500_000);
}

#[test]
fn test_corrupt_chunk_drops_alone() {
    let mut session = Session::new(20);
    session.handle_stream_start(&"pcm".to_owned(), 48000, 2, 16).unwrap();
    // Odd length is not a whole number of 16-bit samples.
    assert!(session.handle_chunk(1, &[0u8; 7], NOW).is_none());
    // The next well-formed chunk still goes through.
    assert!(session.handle_chunk(2, &pcm_chunk(48), NOW).is_some());
}

#[test]
fn test_stream_end_keeps_binding_but_resets_anchor() {
    let mut session = Session::new(20);
    session.handle_stream_start(&"pcm".to_owned(), 48000, 2, 16).unwrap();
    session.handle_chunk(1, &pcm_chunk(48), NOW).unwrap();
    session.handle_stream_end();
    assert!(session.format.is_some());
    // The anchor was dropped: the next fallback chunk re-seeds it.
    let b = session.handle_chunk(2, &pcm_chunk(48), NOW + 9_000_000).unwrap();
    assert_eq!(b.play_at, NOW + 9_000_000 + 20_000);
}

#[test]
fn test_stream_clear_unbinds_everything() {
    let mut session = Session::new(20);
    session.handle_stream_start(&"pcm".to_owned(), 48000, 2, 16).unwrap();
    session.handle_chunk(1, &pcm_chunk(48), NOW).unwrap();
    session.handle_stream_clear();
    assert!(session.format.is_none());
    assert!(session.decoder.is_none());
    assert!(session.handle_chunk(2, &pcm_chunk(48), NOW).is_none());
}

#[test]
fn test_server_command_mapping() {
    assert!(matches!(
        map_server_command(&"pause".to_owned(), None),
        Some(PlaybackControl::Stop)
    ));
    assert!(matches!(
        map_server_command(&"stop".to_owned(), None),
        Some(PlaybackControl::Stop)
    ));
    assert!(matches!(
        map_server_command(&"play".to_owned(), None),
        Some(PlaybackControl::Resume)
    ));
    assert!(matches!(
        map_server_command(&"volume".to_owned(), Some(35)),
        Some(PlaybackControl::SetVolume(35))
    ));
    assert!(map_server_command(&"volume".to_owned(), None).is_none());
    assert!(map_server_command(&"shuffle".to_owned(), Some(1)).is_none());
}

#[test]
fn test_synchronized_state_report() {
    let report = LegacyPlayerState::synchronized_report(30);
    assert_eq!(report.state, "synchronized");
    assert_eq!(report.volume, 30);
    assert!(!report.muted);
}
