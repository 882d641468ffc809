use overlay_core::recording::{
    audio_mode, overlay_position, status_texts, AudioMode, OverlayPhase, RecordingOverlay,
    RecordingPageAction, ShowAction, StopAction,
};

#[test]
fn second_stop_cancels_the_recording() {
    let mut o = RecordingOverlay::new();
    assert!(o.warmup_recording_overlay());
    assert!(!o.warmup_recording_overlay());
    o.hwnd = 77;
    o.on_show(false, 1000);
    assert!(o.is_recording_overlay_active());
    assert_eq!(o.stop_recording_and_submit(), StopAction::UpdateState);
    assert!(o.stop && !o.abort);
    assert_eq!(o.stop_recording_and_submit(), StopAction::Hide);
    assert!(o.abort);
}

#[test]
fn stopping_a_hidden_overlay_does_nothing() {
    let mut o = RecordingOverlay::new();
    assert_eq!(o.stop_recording_and_submit(), StopAction::Nothing);
    assert_eq!(o, RecordingOverlay::new());
}

#[test]
fn showing_creates_the_window_once() {
    let mut o = RecordingOverlay::new();
    assert_eq!(o.show_recording_overlay(), ShowAction::CreateThenShow);
    assert_eq!(o.phase, OverlayPhase::Hidden);
    o.hwnd = 5;
    o.stop = true;
    assert_eq!(o.show_recording_overlay(), ShowAction::Show(5));
    assert!(!o.stop);
}

#[test]
fn page_messages_of_the_recording_overlay() {
    let mut o = RecordingOverlay::new();
    o.hwnd = 9;
    o.on_show(false, 0);
    assert_eq!(o.handle_page_message("pause_toggle"), RecordingPageAction::PauseToggled);
    assert!(o.pause);
    assert_eq!(o.handle_page_message("cancel"), RecordingPageAction::Cancel);
    assert!(o.abort);
    assert_eq!(o.handle_page_message("something else"), RecordingPageAction::Nothing);
}

#[test]
fn status_lines_follow_the_interface_language() {
    let vi = status_texts("vi");
    assert_eq!(vi.recording, "Đang ghi âm...");
    let ko = status_texts("ko");
    assert_eq!(ko.processing, "처리 중...");
    let en = status_texts("de");
    assert_eq!((en.recording, en.processing, en.starting, en.connecting), ("Recording...", "Processing...", "Starting...", "Connecting..."));
}

#[test]
fn overlay_sits_below_the_centre() {
    assert_eq!(overlay_position(1920, 1080, 450, 70), (735, 605));
}

#[test]
fn audio_mode_of_the_preset() {
    let live = vec![("audio".to_string(), Some("gemini-live".to_string()))];
    assert_eq!(audio_mode(&live), AudioMode::GeminiLive);
    let local = vec![("text".to_string(), None), ("audio".to_string(), Some("parakeet".to_string()))];
    assert_eq!(audio_mode(&local), AudioMode::Parakeet);
    let other = vec![("text".to_string(), Some("gemini-live".to_string()))];
    assert_eq!(audio_mode(&other), AudioMode::RecordThenTranscribe);
    assert_eq!(audio_mode(&Vec::new()), AudioMode::RecordThenTranscribe);
}

#[test]
fn close_requests_right_after_showing_are_ignored() {
    let mut o = RecordingOverlay::new();
    o.on_show(false, 10_000);
    assert!(!o.on_close_request(11_000));
    assert!(o.on_close_request(12_500));
    o.stop = true;
    assert!(o.on_close_request(10_001));
}
