use whisper::{log_level_code, AVLogLevel, Action, Event, ExtractError, Extraction, Phase};

/// Drives an extraction to the read loop with the audio stream at `stream`.
fn opened(stream: usize) -> Extraction<f32> {
    let (mut x, first) = Extraction::new();
    assert_eq!(first, Action::Open);
    assert_eq!(x.step(Event::Opened(true)), Action::SelectStream);
    assert_eq!(x.step(Event::StreamSelected(Some(stream))), Action::OpenDecoder);
    assert_eq!(x.step(Event::DecoderOpened(true)), Action::OpenResampler);
    assert_eq!(x.step(Event::ResamplerOpened(true)), Action::ReadPacket);
    x
}

#[test]
fn no_audio_stream_fails_without_buffer() {
    let (mut x, _) = Extraction::<f32>::new();
    x.step(Event::Opened(true));
    assert_eq!(x.step(Event::StreamSelected(None)), Action::Finish);
    assert!(x.is_finished());
    assert_eq!(x.phase(), Phase::Failed(ExtractError::NoAudioStream));
    assert_eq!(x.finish(), Err(ExtractError::NoAudioStream));
}

#[test]
fn open_failure_is_reported() {
    let (mut x, _) = Extraction::<f32>::new();
    assert_eq!(x.step(Event::Opened(false)), Action::Finish);
    assert_eq!(x.finish(), Err(ExtractError::OpenFailed));
}

#[test]
fn decoder_setup_failure_is_a_decode_error() {
    let (mut x, _) = Extraction::<f32>::new();
    x.step(Event::Opened(true));
    x.step(Event::StreamSelected(Some(0)));
    assert_eq!(x.step(Event::DecoderOpened(false)), Action::Finish);
    assert_eq!(x.finish(), Err(ExtractError::DecodeFailed));
}

#[test]
fn resampler_setup_failure_is_a_resample_error() {
    let (mut x, _) = Extraction::<f32>::new();
    x.step(Event::Opened(true));
    x.step(Event::StreamSelected(Some(0)));
    x.step(Event::DecoderOpened(true));
    assert_eq!(x.step(Event::ResamplerOpened(false)), Action::Finish);
    assert_eq!(x.finish(), Err(ExtractError::ResampleFailed));
}

#[test]
fn rejected_packet_is_a_decode_error_and_drops_samples() {
    let mut x = opened(1);
    x.step(Event::Packet(Some(1)));
    x.step(Event::Sent(true));
    x.step(Event::Frame(true));
    x.step(Event::Resampled(Some(vec![0.5, 0.25])));
    x.step(Event::Frame(false));
    assert_eq!(x.step(Event::Packet(Some(1))), Action::SendPacket);
    assert_eq!(x.step(Event::Sent(false)), Action::Finish);
    assert_eq!(x.finish(), Err(ExtractError::DecodeFailed));
}

#[test]
fn resample_failure_is_reported() {
    let mut x = opened(0);
    x.step(Event::Packet(Some(0)));
    x.step(Event::Sent(true));
    x.step(Event::Frame(true));
    assert_eq!(x.step(Event::Resampled(None)), Action::Finish);
    assert_eq!(x.finish(), Err(ExtractError::ResampleFailed));
}

#[test]
fn packets_of_other_streams_are_skipped() {
    let mut x = opened(2);
    assert_eq!(x.step(Event::Packet(Some(0))), Action::ReadPacket);
    assert_eq!(x.step(Event::Packet(Some(1))), Action::ReadPacket);
    assert_eq!(x.step(Event::Packet(Some(2))), Action::SendPacket);
}

#[test]
fn frames_are_flattened_in_order() {
    let mut x = opened(0);
    assert_eq!(x.step(Event::Packet(Some(0))), Action::SendPacket);
    assert_eq!(x.step(Event::Sent(true)), Action::ReceiveFrame);
    assert_eq!(x.step(Event::Frame(true)), Action::Resample);
    assert_eq!(x.step(Event::Resampled(Some(vec![1.0, 2.0]))), Action::ReceiveFrame);
    assert_eq!(x.step(Event::Frame(true)), Action::Resample);
    assert_eq!(x.step(Event::Resampled(Some(vec![3.0]))), Action::ReceiveFrame);
    assert_eq!(x.step(Event::Frame(false)), Action::ReadPacket);
    assert_eq!(x.step(Event::Packet(None)), Action::SendEof);
    assert_eq!(x.step(Event::Sent(true)), Action::ReceiveFrame);
    assert_eq!(x.step(Event::Frame(false)), Action::Finish);
    assert_eq!(x.phase(), Phase::Done);
    assert_eq!(x.finish(), Ok(vec![1.0f32, 2.0, 3.0]));
}

#[test]
fn frames_held_until_end_of_stream_are_all_kept() {
    let n = 5;
    let mut x = opened(0);
    for _ in 0..3 {
        assert_eq!(x.step(Event::Packet(Some(0))), Action::SendPacket);
        assert_eq!(x.step(Event::Sent(true)), Action::ReceiveFrame);
        assert_eq!(x.step(Event::Frame(false)), Action::ReadPacket);
    }
    assert_eq!(x.step(Event::Packet(None)), Action::SendEof);
    assert_eq!(x.step(Event::Sent(true)), Action::ReceiveFrame);
    let mut expected: Vec<f32> = Vec::new();
    for k in 0..n {
        let plane = vec![k as f32, k as f32 + 0.5];
        expected.extend_from_slice(&plane);
        assert_eq!(x.step(Event::Frame(true)), Action::Resample);
        assert_eq!(x.step(Event::Resampled(Some(plane))), Action::ReceiveFrame);
    }
    assert_eq!(x.step(Event::Frame(false)), Action::Finish);
    let samples = x.finish().unwrap();
    assert_eq!(samples.len(), 2 * n);
    assert_eq!(samples, expected);
}

#[test]
fn empty_stream_gives_empty_buffer() {
    let mut x = opened(0);
    assert_eq!(x.step(Event::Packet(None)), Action::SendEof);
    assert_eq!(x.step(Event::Sent(true)), Action::ReceiveFrame);
    assert_eq!(x.step(Event::Frame(false)), Action::Finish);
    assert_eq!(x.finish(), Ok(Vec::new()));
}

#[test]
fn log_level_defaults_to_quiet() {
    assert_eq!(log_level_code(None), -8);
    assert_eq!(log_level_code(Some(AVLogLevel::Panic)), 0);
    assert_eq!(log_level_code(Some(AVLogLevel::Warning)), 24);
    assert_eq!(AVLogLevel::Trace.code(), 56);
    assert_eq!(AVLogLevel::Error.code(), 16);
}
