use recompress::detect_compression_type;
use recompress::detect_prefix;
use recompress::route_recompress;
use recompress::step;
use recompress::CompressionType;
use recompress::PipelineEvent;
use recompress::PipelineState;
use recompress::ReplayBuffer;
use recompress::Route;

#[test]
fn detects_zstd_signature() {
    let kind = detect_compression_type(&[0x28, 0xb5, 0x2f, 0xfd, 0xaa, 0x55]);
    assert_eq!(kind, CompressionType::Zstd);
}

#[test]
fn detects_gzip_signature() {
    let kind = detect_compression_type(&[0x1f, 0x8b, 0x08, 0x00, 0xff, 0x01]);
    assert_eq!(kind, CompressionType::Gzip);
}

#[test]
fn detects_deflate_signature() {
    let kind = detect_compression_type(&[0x78, 0x01, 0x9d, 0x3b, 0x00, 0x11]);
    assert_eq!(kind, CompressionType::Deflate);
}

#[test]
fn detects_zlib_signature() {
    let kind = detect_compression_type(&[0x78, 0x9c, 0x4b, 0xc9, 0x2c, 0x4e]);
    assert_eq!(kind, CompressionType::Zlib);
}

#[test]
fn detects_xz_signature() {
    let kind = detect_compression_type(&[0xfd, 0x37, 0x7a, 0x58, 0x5a, 0x00]);
    assert_eq!(kind, CompressionType::Xz);
}

#[test]
fn detects_bzip_signature() {
    let kind = detect_compression_type(&[0x42, 0x5a, 0x68, 0x39, 0x31, 0x41]);
    assert_eq!(kind, CompressionType::Bzip);
}

#[test]
fn xz_signature_must_match_all_six_bytes() {
    let kind = detect_compression_type(&[0xfd, 0x37, 0x7a, 0x58, 0x5a, 0x01]);
    assert_eq!(kind, CompressionType::Uncompressed);
    let short = detect_prefix(&[0xfd, 0x37, 0x7a, 0x58, 0x5a]);
    assert_eq!(short, CompressionType::Uncompressed);
}

#[test]
fn unmatched_prefix_is_uncompressed() {
    let zeros = detect_compression_type(&[0x00, 0x00, 0x00, 0x00, 0x00, 0x00]);
    assert_eq!(zeros, CompressionType::Uncompressed);
    let text = detect_prefix("this is a test".as_bytes());
    assert_eq!(text, CompressionType::Uncompressed);
}

#[test]
fn short_inputs_are_safe() {
    assert_eq!(detect_prefix(&[]), CompressionType::Uncompressed);
    assert_eq!(detect_prefix(&[0x1f]), CompressionType::Uncompressed);
    assert_eq!(
        detect_prefix(&[0x00, 0x01, 0x02, 0x03, 0x04]),
        CompressionType::Uncompressed
    );
    // Five bytes are enough when the signature itself is shorter.
    assert_eq!(
        detect_prefix(&[0x1f, 0x8b, 0x08, 0x00, 0xff]),
        CompressionType::Gzip
    );
}

#[test]
fn replay_buffer_hands_bytes_back_in_order() {
    let mut replay = ReplayBuffer::new(vec![1, 2, 3, 4, 5]);
    assert!(!replay.is_exhausted());
    assert_eq!(replay.replay_up_to(2), vec![1, 2]);
    assert!(!replay.is_exhausted());
    assert_eq!(replay.replay_up_to(16), vec![3, 4, 5]);
    assert!(replay.is_exhausted());
    assert_eq!(replay.replay_up_to(4), Vec::<u8>::new());
}

#[test]
fn route_copies_when_target_equals_detected() {
    let input: Vec<u8> = vec![0x42, 0x5a, 0x68, 0x39, 0x31, 0x41, 0x59, 0x26];
    match route_recompress(&input, CompressionType::Bzip) {
        Route::Copy { output } => assert_eq!(output, input),
        Route::Transcode { .. } => panic!("equal kinds must take the verbatim copy"),
    }
}

#[test]
fn route_transcodes_when_target_differs() {
    let input: Vec<u8> = vec![0x42, 0x5a, 0x68, 0x39, 0x31, 0x41, 0x59, 0x26];
    match route_recompress(&input, CompressionType::Gzip) {
        Route::Copy { .. } => panic!("differing kinds must transcode"),
        Route::Transcode { detected, composite } => {
            assert_eq!(detected, CompressionType::Bzip);
            assert_eq!(composite, input);
        }
    }
}

#[test]
fn route_is_deterministic() {
    let input: Vec<u8> = "this is a test".as_bytes().to_vec();
    let first = route_recompress(&input, CompressionType::Gzip);
    let second = route_recompress(&input, CompressionType::Gzip);
    match (first, second) {
        (
            Route::Transcode { detected: d1, composite: c1 },
            Route::Transcode { detected: d2, composite: c2 },
        ) => {
            assert_eq!(d1, d2);
            assert_eq!(c1, c2);
        }
        _ => panic!("an uncompressed input with a gzip target must transcode, both times"),
    }
}

#[test]
fn pipeline_runs_to_done() {
    let mut state = PipelineState::Start;
    state = step(state, PipelineEvent::DetectionStarted);
    assert_eq!(state, PipelineState::Detecting);
    state = step(state, PipelineEvent::Detected { verbatim: true });
    assert_eq!(state, PipelineState::CopyingVerbatim);
    state = step(state, PipelineEvent::InputExhausted);
    assert_eq!(state, PipelineState::Finalizing);
    state = step(state, PipelineEvent::Finalized);
    assert_eq!(state, PipelineState::Done);
    // Done is terminal, whatever arrives afterwards.
    assert_eq!(step(state, PipelineEvent::Failure), PipelineState::Done);
}

#[test]
fn pipeline_transcoding_path_runs_to_done() {
    let mut state = step(PipelineState::Start, PipelineEvent::DetectionStarted);
    state = step(state, PipelineEvent::Detected { verbatim: false });
    assert_eq!(state, PipelineState::Transcoding);
    state = step(state, PipelineEvent::InputExhausted);
    state = step(state, PipelineEvent::Finalized);
    assert_eq!(state, PipelineState::Done);
}

#[test]
fn pipeline_failure_is_terminal() {
    let state = step(PipelineState::Transcoding, PipelineEvent::Failure);
    assert_eq!(state, PipelineState::Failed);
    assert_eq!(
        step(state, PipelineEvent::Finalized),
        PipelineState::Failed
    );
    // An event out of order also aborts the call.
    assert_eq!(
        step(PipelineState::Start, PipelineEvent::Finalized),
        PipelineState::Failed
    );
}
