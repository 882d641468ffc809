use overlay_core::layout::{Point, Rect, ResizeEdge};
use overlay_core::window_state::BackAction;
use overlay_core::window_state::{
    accumulate_chunk, button_hover_at, canvas_buttons, classify_url, cursor_kind_at,
    elapsed_since, get_chain_color, ButtonHover, ClickAction, CursorKind, DragMove, DragState,
    InteractionMode, Navigation, NavigationOutcome, RefineContext, SpeakerAction, TextDisplay,
    TextHistory, TtsState, UrlKind, WindowState, CHAIN_PALETTE, CHAIN_PALETTE_LIGHT,
};

fn history(current: &str, undo: &[&str], redo: &[&str]) -> TextHistory {
    TextHistory {
        full_text: current.to_string(),
        text_history: undo.iter().map(|s| s.to_string()).collect(),
        redo_history: redo.iter().map(|s| s.to_string()).collect(),
    }
}

fn window(text: &str, render_mode: &str, streaming: bool) -> WindowState {
    WindowState::new(
        RefineContext::NoContext,
        "model".to_string(),
        "provider".to_string(),
        streaming,
        false,
        String::new(),
        0,
        render_mode,
        text.to_string(),
        "standard".to_string(),
    )
}

#[test]
fn undo_then_redo_restores_the_history() {
    let mut h = history("c", &["a", "b"], &[]);
    assert_eq!(h.undo(), Some("b".to_string()));
    assert_eq!(h.full_text, "b");
    assert_eq!(h.text_history, vec!["a".to_string()]);
    assert_eq!(h.redo_history, vec!["c".to_string()]);
    assert_eq!(h.redo(), Some("c".to_string()));
    assert_eq!(h.full_text, "c");
    assert_eq!(h.text_history, vec!["a".to_string(), "b".to_string()]);
    assert!(h.redo_history.is_empty());
}

#[test]
fn undo_with_empty_history_changes_nothing() {
    let mut h = history("only", &[], &["x"]);
    assert_eq!(h.undo(), None);
    assert_eq!(h.full_text, "only");
    assert_eq!(h.redo_history, vec!["x".to_string()]);
}

#[test]
fn click_undo_does_not_keep_an_empty_text_for_redo() {
    let mut h = history("", &["before"], &[]);
    assert_eq!(h.undo_keep_nonempty(), Some("before".to_string()));
    assert_eq!(h.full_text, "before");
    assert!(h.redo_history.is_empty());
    let mut k = history("now", &["before"], &[]);
    k.undo_keep_nonempty();
    assert_eq!(k.redo_keep_nonempty(), Some("now".to_string()));
    assert_eq!(k.full_text, "now");
    assert_eq!(k.text_history, vec!["before".to_string()]);
}

#[test]
fn refinement_saves_the_text_and_clears_redo() {
    let mut h = history("draft", &["old"], &["gone"]);
    assert_eq!(h.begin_refinement(), "draft");
    assert_eq!(h.full_text, "");
    assert_eq!(h.text_history, vec!["old".to_string(), "draft".to_string()]);
    assert!(h.redo_history.is_empty());
    h.full_text = "refined".to_string();
    assert_eq!(h.undo(), Some("draft".to_string()));
    assert_eq!(h.text_history, vec!["old".to_string()]);
    assert_eq!(h.redo_history, vec!["refined".to_string()]);
}

#[test]
fn urls_are_classified() {
    assert_eq!(classify_url("https://example.com/page"), UrlKind::External);
    assert_eq!(classify_url("http://localhost:8080/"), UrlKind::Internal);
    assert_eq!(classify_url("https://wry.localhost/index.html"), UrlKind::Internal);
    assert_eq!(classify_url("data:text/html,hi"), UrlKind::Internal);
    assert_eq!(classify_url("about:blank"), UrlKind::Internal);
    assert_eq!(classify_url("file:///c:/x.html"), UrlKind::Other);
}

#[test]
fn following_links_and_going_back() {
    let mut n = Navigation::home();
    assert_eq!(n.on_navigation("https://a.example", false), NavigationOutcome::EnteredPage);
    assert_eq!(n.on_navigation("https://b.example", false), NavigationOutcome::EnteredPage);
    assert_eq!((n.is_browsing, n.navigation_depth, n.max_navigation_depth), (true, 2, 2));
    assert_eq!(n.on_navigation("https://c.example", true), NavigationOutcome::Skipped);
    assert!(!n.go_back());
    assert_eq!((n.navigation_depth, n.max_navigation_depth), (1, 2));
    assert!(n.can_go_forward());
    assert!(n.go_forward());
    assert_eq!(n.navigation_depth, 2);
    assert!(!n.go_forward());
    assert!(!n.go_back());
    assert!(n.go_back());
    assert_eq!(n, Navigation::home());
}

#[test]
fn returning_to_an_internal_page_resets_browsing() {
    let mut n = Navigation::home();
    n.on_navigation("https://a.example", false);
    assert_eq!(n.on_navigation("about:blank", false), NavigationOutcome::ReturnedHome);
    assert_eq!(n, Navigation::home());
    assert_eq!(n.on_navigation("about:blank", false), NavigationOutcome::Unchanged);
    assert_eq!(n.on_navigation("ftp://x", false), NavigationOutcome::Unchanged);
}

#[test]
fn speaker_button_starts_stops_and_ignores() {
    let mut t = TtsState { tts_request_id: 0, tts_loading: false };
    assert_eq!(t.speaker_click("hello", false), SpeakerAction::Start);
    assert!(t.tts_loading);
    assert_eq!(t.speaker_click("hello", true), SpeakerAction::Ignore);
    let mut playing = TtsState { tts_request_id: 7, tts_loading: false };
    assert!(playing.is_speaking());
    assert_eq!(playing.speaker_click("hello", true), SpeakerAction::Stop);
    assert_eq!(playing, TtsState { tts_request_id: 0, tts_loading: false });
    let mut idle = TtsState { tts_request_id: 0, tts_loading: false };
    assert_eq!(idle.speaker_click("", false), SpeakerAction::NoText);
}

#[test]
fn elapsed_time_wraps_around() {
    assert_eq!(elapsed_since(100, 40), 60);
    assert_eq!(elapsed_since(5, u32::MAX - 4), 10);
}

#[test]
fn chain_colours_cycle_after_the_primary() {
    assert_eq!(get_chain_color(0, true), CHAIN_PALETTE[0]);
    assert_eq!(get_chain_color(1, true), CHAIN_PALETTE[1]);
    assert_eq!(get_chain_color(4, true), CHAIN_PALETTE[4]);
    assert_eq!(get_chain_color(5, true), CHAIN_PALETTE[1]);
    assert_eq!(get_chain_color(6, false), CHAIN_PALETTE_LIGHT[2]);
}

#[test]
fn streamed_chunks_accumulate_until_a_wipe() {
    let mut acc = String::from("Hello");
    accumulate_chunk(&mut acc, " world", "WIPE:");
    assert_eq!(acc, "Hello world");
    accumulate_chunk(&mut acc, "WIPE:fresh", "WIPE:");
    assert_eq!(acc, "fresh");
}

#[test]
fn drag_counts_as_a_click_until_it_moves_more_than_three_pixels() {
    let mut d = DragState::idle();
    d.begin_left_drag(ResizeEdge::NoEdge, Point { x: 100, y: 100 }, Rect { left: 10, top: 20, right: 210, bottom: 120 });
    match d.drag_move(Point { x: 103, y: 102 }) {
        DragMove::MoveWindow(x, y) => assert_eq!((x, y), (13, 22)),
        _ => panic!("window should move"),
    }
    assert!(!d.has_moved_significantly);
    d.drag_move(Point { x: 96, y: 100 });
    assert!(d.has_moved_significantly);
    assert_eq!(d.finish_left(), (false, false));
    assert!(matches!(d.interaction_mode, InteractionMode::Idle));
}

#[test]
fn dragging_an_edge_resizes() {
    let mut d = DragState::idle();
    let start = Rect { left: 0, top: 0, right: 100, bottom: 100 };
    d.begin_left_drag(ResizeEdge::BottomRight, Point { x: 100, y: 100 }, start);
    match d.drag_move(Point { x: 150, y: 120 }) {
        DragMove::Resize(r) => assert_eq!(r, Rect { left: 0, top: 0, right: 150, bottom: 120 }),
        _ => panic!("window should resize"),
    }
    assert_eq!(d.finish_left(), (true, false));
}

#[test]
fn right_drag_moves_the_group_and_skips_the_copy() {
    let mut d = DragState::idle();
    let group = vec![(1isize, Rect { left: 0, top: 0, right: 10, bottom: 10 }), (2isize, Rect { left: 50, top: 60, right: 70, bottom: 80 })];
    d.begin_group_drag(Point { x: 5, y: 5 }, group);
    match d.drag_move(Point { x: 25, y: 15 }) {
        DragMove::MoveGroup(v) => assert_eq!(v, vec![(1, 20, 10), (2, 70, 70)]),
        _ => panic!("group should move"),
    }
    assert!(!d.finish_right());
    let mut still = DragState::idle();
    still.begin_group_drag(Point { x: 5, y: 5 }, Vec::new());
    assert!(still.finish_right());
}

#[test]
fn cursor_shapes_over_the_window() {
    assert_eq!(cursor_kind_at(400, 300, 50, 20, true, false, false, false), CursorKind::IBeam);
    assert_eq!(cursor_kind_at(400, 300, 2, 150, false, false, false, false), CursorKind::SizeWE);
    assert_eq!(cursor_kind_at(400, 300, 200, 298, false, false, false, false), CursorKind::SizeNS);
    assert_eq!(cursor_kind_at(400, 300, 1, 1, false, false, false, false), CursorKind::SizeNWSE);
    assert_eq!(cursor_kind_at(400, 300, 398, 1, false, false, false, false), CursorKind::SizeNESW);
    assert_eq!(cursor_kind_at(400, 300, 370, 270, false, false, false, false), CursorKind::Hand);
    assert_eq!(cursor_kind_at(400, 300, 370, 270, false, true, false, false), CursorKind::Blank);
    assert_eq!(cursor_kind_at(400, 300, 190, 270, false, false, false, false), CursorKind::Blank);
    assert_eq!(cursor_kind_at(400, 300, 190, 270, false, false, true, false), CursorKind::Hand);
}

#[test]
fn hovering_the_copy_button_and_clicking_it() {
    let b = button_hover_at(370, 270, 400, 300, false, false, false, Navigation::home(), false);
    assert!(b.on_copy_btn);
    assert!(!b.on_edit_btn);
    assert_eq!(b.click_action(), ClickAction::Copy);
    let none = button_hover_at(370, 270, 400, 300, true, false, false, Navigation::home(), false);
    assert_eq!(none, ButtonHover::none());
    assert_eq!(none.click_action(), ClickAction::Close);
}

#[test]
fn new_window_state_starts_idle_with_its_text_pending() {
    let s = window("hi", "markdown_stream", true);
    assert_eq!(s.texts.full_text, "hi");
    assert_eq!(s.display.pending_text, Some("hi".to_string()));
    assert!(s.is_markdown_mode && s.is_markdown_streaming);
    assert!(s.display.is_streaming_active);
    assert_eq!(s.cached_font_size, 72);
    let plain = window("", "plain", false);
    assert!(!plain.is_markdown_mode);
}

#[test]
fn submitting_a_refinement_saves_the_text_for_undo() {
    let mut s = window("first draft", "plain", false);
    assert!(s.submit_refine("   ").is_none());
    assert_eq!(s.texts.full_text, "first draft");
    let req = s.submit_refine("make it shorter").unwrap();
    assert_eq!(req, ("first draft".to_string(), "make it shorter".to_string()));
    assert_eq!(s.texts.text_history, vec!["first draft".to_string()]);
    assert_eq!(s.input_text, "first draft");
    assert!(s.is_refining && !s.is_editing);
    s.on_refine_chunk("short", true);
    assert!(!s.is_refining);
    s.finish_refine("short.".to_string());
    assert_eq!(s.texts.full_text, "short.");
    assert_eq!(s.undo_from_click(), Some("first draft".to_string()));
    assert_eq!(s.redo_from_click(), Some("short.".to_string()));
}

#[test]
fn refine_request_uses_the_preset_prompt_for_an_empty_text() {
    let mut s = window("   ", "plain", false);
    s.preset_prompt = "Translate".to_string();
    assert_eq!(s.refine_request("bonjour"), ("bonjour".to_string(), "Translate".to_string()));
    let t = window("text", "plain", false);
    assert_eq!(t.refine_request("fix"), ("text".to_string(), "fix".to_string()));
}

#[test]
fn markdown_toggle_is_refused_while_streaming() {
    let mut s = window("x", "plain", true);
    assert_eq!(s.toggle_markdown(), None);
    let mut t = window("x", "plain", false);
    assert_eq!(t.toggle_markdown(), Some(true));
    assert_eq!(t.toggle_markdown(), Some(false));
}

#[test]
fn timer_shows_a_due_text_in_the_plain_window() {
    let mut s = window("first", "plain", false);
    let t = s.timer_tick(1000);
    assert!(t.repaint && !t.refresh_quote);
    match t.display {
        Some(TextDisplay::Plain(txt)) => assert_eq!(txt, "first"),
        _ => panic!("plain text expected"),
    }
    assert!(s.display.pending_text.is_none());
    let again = s.timer_tick(1010);
    assert!(again.display.is_none() && !again.repaint);
}

#[test]
fn timer_throttles_streamed_markdown() {
    let mut s = window("a", "markdown_stream", true);
    let first = s.timer_tick(1000);
    assert!(matches!(first.display, Some(TextDisplay::StreamMarkdown(_))));
    s.update_text("ab");
    let soon = s.timer_tick(1010);
    assert!(soon.display.is_none());
    assert!(s.display.pending_text.is_some());
    let later = s.timer_tick(1100);
    match later.display {
        Some(TextDisplay::StreamMarkdown(txt)) => assert_eq!(txt, "ab"),
        _ => panic!("streamed text expected"),
    }
    s.display.is_streaming_active = false;
    s.update_text("abc");
    match s.timer_tick(1105).display {
        Some(TextDisplay::FinishMarkdownStream(txt)) => assert_eq!(txt, "abc"),
        _ => panic!("final render expected"),
    }
}

#[test]
fn mouse_enter_and_leave() {
    let mut s = window("x", "plain", false);
    assert!(s.on_mouse_move(370, 270, 400, 300));
    assert!(s.is_hovered && s.buttons.on_copy_btn);
    assert!(!s.on_mouse_move(371, 270, 400, 300));
    s.mouse_left();
    assert!(!s.is_hovered);
    assert_eq!(s.buttons, ButtonHover::none());
}

#[test]
fn canvas_flags_of_a_window() {
    let mut s = window("x", "markdown", false);
    s.texts.text_history.push("old".to_string());
    s.tts = TtsState { tts_request_id: 3, tts_loading: false };
    let b = canvas_buttons(Some(&s));
    assert!(b.has_undo && !b.has_redo && b.tts_speaking && b.is_markdown && !b.tts_loading);
    let none = canvas_buttons(None);
    assert!(!none.has_undo && !none.copy_success && none.nav_depth == 0);
}

#[test]
fn resizing_refits_the_font_after_a_pause() {
    let mut s = window("x", "plain", false);
    s.display.font_cache_dirty = false;
    s.note_client_size(400, 300, 1000);
    assert!(s.display.font_cache_dirty);
    assert_eq!((s.last_w, s.last_h, s.last_resize_time), (400, 300, 1000));
    s.display.font_cache_dirty = false;
    s.note_client_size(410, 300, 1050);
    assert!(!s.display.font_cache_dirty);
    s.note_client_size(420, 300, 1200);
    assert!(s.display.font_cache_dirty);
    s.display.font_cache_dirty = false;
    s.note_client_size(420, 300, 5000);
    assert!(!s.display.font_cache_dirty);
    assert_eq!(s.last_resize_time, 1200);
}

#[test]
fn the_broom_shows_away_from_buttons_and_edges() {
    let mut s = window("x", "plain", false);
    assert!(!s.shows_broom());
    s.on_mouse_move(200, 150, 400, 300);
    assert!(s.shows_broom());
    s.on_mouse_move(370, 270, 400, 300);
    assert!(!s.shows_broom());
    s.on_mouse_move(2, 150, 400, 300);
    assert!(!s.shows_broom());
}

#[test]
fn a_refinement_with_a_preset_and_no_text_refines_the_prompt() {
    let mut s = window("  ", "plain", false);
    s.preset_prompt = "Translate".to_string();
    let req = s.submit_refine("bonjour").unwrap();
    assert_eq!(req, ("bonjour".to_string(), "Translate".to_string()));
}

#[test]
fn a_font_fit_is_stored_and_cleans_the_cache() {
    let mut s = window("x", "plain", false);
    assert!(s.display.font_cache_dirty);
    s.record_font_fit(400, 300, 37);
    assert_eq!(s.cached_font_size, 37);
    assert!(!s.display.font_cache_dirty);
}

#[test]
fn going_back_and_forward_marks_the_view_navigation_to_skip() {
    let mut s = window("result text", "markdown", false);
    assert_eq!(s.on_view_navigation("https://a.example"), NavigationOutcome::EnteredPage);
    assert_eq!(s.on_view_navigation("https://b.example"), NavigationOutcome::EnteredPage);
    assert!(matches!(s.go_back(), BackAction::HistoryBack));
    assert!(s.skip_next_navigation);
    assert_eq!(s.on_view_navigation("https://a.example"), NavigationOutcome::Skipped);
    assert!(!s.skip_next_navigation);
    assert_eq!((s.nav.navigation_depth, s.nav.max_navigation_depth), (1, 2));
    assert!(s.go_forward());
    assert!(s.skip_next_navigation);
    assert_eq!(s.on_view_navigation("https://b.example"), NavigationOutcome::Skipped);
    assert_eq!(s.nav.navigation_depth, 2);
    assert!(!s.go_forward());
    assert!(s.skip_next_navigation);
    s.on_view_navigation("https://b.example");
    s.go_back();
    s.on_view_navigation("https://a.example");
    match s.go_back() {
        BackAction::Rebuild(text, hovered) => {
            assert_eq!(text, "result text");
            assert!(!hovered);
        }
        BackAction::HistoryBack => panic!("the view is rebuilt at the result"),
    }
    assert_eq!(s.nav, Navigation::home());
    assert!(!s.skip_next_navigation);
}
