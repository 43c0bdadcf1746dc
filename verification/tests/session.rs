use capture_sync::capture::{Capture, Directive, SessionState, StartError};
use capture_sync::console::{parse_command, ConsoleCommand};
use capture_sync::producer::{producer_poll, ProducerStep};

#[test]
fn start_without_device_is_refused() {
    let r = Capture::start(false, true);
    assert_eq!(r.err(), Some(StartError::DeviceUnavailable));
}

#[test]
fn start_without_device_reports_device_first() {
    let r = Capture::start(false, false);
    assert_eq!(r.err(), Some(StartError::DeviceUnavailable));
}

#[test]
fn start_without_encoder_is_refused() {
    let r = Capture::start(true, false);
    assert_eq!(r.err(), Some(StartError::EncoderInitFailure));
}

#[test]
fn start_succeeds_fresh() {
    let session = Capture::start(true, true).unwrap();
    assert_eq!(session.session_state(), SessionState::Active);
    assert!(session.is_active());
    assert!(!session.shutdown_requested());
    assert!(session.pending_audio().is_empty());
}

#[test]
fn chunks_absorbed_in_production_order() {
    let mut session = Capture::start(true, true).unwrap();
    let chunks = vec![vec![10u8, 11], vec![], vec![12u8], vec![13u8, 14, 15]];
    session.absorb_chunks(&chunks);
    assert_eq!(session.pending_audio(), &vec![10u8, 11, 12, 13, 14, 15]);
}

#[test]
fn frame_drains_window_and_continues() {
    let mut session = Capture::start(true, true).unwrap();
    session.absorb_chunks(&vec![vec![1u8, 2]]);
    let (directive, window) = session.on_frame_arrived(&vec![vec![3u8], vec![4u8, 5]], true);
    assert_eq!(directive, Directive::KeepCapturing);
    assert_eq!(window, vec![1u8, 2, 3, 4, 5]);
    assert!(session.pending_audio().is_empty());
    assert!(session.is_active());
}

#[test]
fn five_chunks_of_four_bytes_drain_as_twenty_then_fresh_window() {
    let mut session = Capture::start(true, true).unwrap();
    let mut chunks: Vec<Vec<u8>> = Vec::new();
    for c in 0u8..5 {
        chunks.push(vec![4 * c, 4 * c + 1, 4 * c + 2, 4 * c + 3]);
    }
    session.absorb_chunks(&chunks);
    assert_eq!(session.pending_audio().len(), 20);
    let expected: Vec<u8> = (0u8..20).collect();
    assert_eq!(session.pending_audio(), &expected);

    let (directive, window) = session.on_frame_arrived(&Vec::new(), true);
    assert_eq!(directive, Directive::KeepCapturing);
    assert_eq!(window, expected);
    assert!(session.pending_audio().is_empty());

    session.absorb_chunks(&vec![vec![90u8]]);
    assert_eq!(session.pending_audio(), &vec![90u8]);
}

#[test]
fn encode_failure_stops_the_session() {
    let mut session = Capture::start(true, true).unwrap();
    let (d1, _) = session.on_frame_arrived(&vec![vec![1u8]], true);
    assert_eq!(d1, Directive::KeepCapturing);
    let (d2, _) = session.on_frame_arrived(&vec![vec![2u8]], true);
    assert_eq!(d2, Directive::KeepCapturing);
    let (d3, window) = session.on_frame_arrived(&vec![vec![3u8]], false);
    assert_eq!(d3, Directive::StopCapture);
    assert_eq!(window, vec![3u8]);
    assert_eq!(session.session_state(), SessionState::Stopping);
    assert!(!session.is_active());
    let finalized = session.on_closed();
    assert!(finalized);
    assert_eq!(session.session_state(), SessionState::Stopped);
    assert!(!session.is_active());
}

#[test]
fn stop_before_any_frame_closes_exactly_once() {
    let mut session = Capture::start(true, true).unwrap();
    let requested = session.stop();
    assert!(requested);
    assert_eq!(session.session_state(), SessionState::Stopping);
    let finalize_first = session.on_closed();
    assert!(finalize_first);
    assert!(session.shutdown_requested());
    assert_eq!(session.session_state(), SessionState::Stopped);
    let finalize_second = session.on_closed();
    assert!(!finalize_second);
    assert_eq!(session.session_state(), SessionState::Stopped);
}

#[test]
fn second_stop_has_no_effect() {
    let mut session = Capture::start(true, true).unwrap();
    let first = session.stop();
    assert!(first);
    let second = session.stop();
    assert!(!second);
    assert_eq!(session.session_state(), SessionState::Stopping);

    let finalize = session.on_closed();
    assert!(finalize);
    let third = session.stop();
    assert!(!third);
    assert_eq!(session.session_state(), SessionState::Stopped);
    let finalize_again = session.on_closed();
    assert!(!finalize_again);
}

#[test]
fn stop_audio_fires_signal_without_state_change() {
    let mut session = Capture::start(true, true).unwrap();
    assert!(!session.shutdown_requested());
    session.stop_audio();
    assert!(session.shutdown_requested());
    assert_eq!(session.session_state(), SessionState::Active);
    session.stop_audio();
    assert!(session.shutdown_requested());
}

#[test]
fn console_exit_before_any_frame_tears_everything_down() {
    let mut session = Capture::start(true, true).unwrap();
    assert_eq!(parse_command("exit"), ConsoleCommand::StopAndExit);
    let requested = session.stop();
    assert!(requested);
    let finalize = session.on_closed();
    assert!(finalize);
    assert_eq!(session.session_state(), SessionState::Stopped);
    assert_eq!(producer_poll(session.shutdown_requested()), ProducerStep::TearDown);
    let finalize_again = session.on_closed();
    assert!(!finalize_again);
}

#[test]
fn frame_with_no_queued_audio() {
    let mut session = Capture::start(true, true).unwrap();
    let (directive, window) = session.on_frame_arrived(&Vec::new(), true);
    assert_eq!(directive, Directive::KeepCapturing);
    assert!(window.is_empty());
    assert!(session.is_active());
}
