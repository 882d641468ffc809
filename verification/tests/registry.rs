use overlay_core::registry::{
    close_windows_with_token, get_active_refine_parent, get_window_group, handle_destroy,
    is_any_refine_active, link_windows, set_copy_success, set_refine_text, set_tts_request,
    set_window_interaction_mode, trigger_close_all, trigger_copy, trigger_edit,
    trigger_markdown_toggle, trigger_redo, trigger_refine_cancel, trigger_refine_submit,
    trigger_speaker, trigger_undo, update_window_text, KeyFilter, WindowRegistry,
};
use overlay_core::canvas::CanvasWindows;
use overlay_core::layout::Rect;
use overlay_core::refine_input::RefineInputs;
use overlay_core::registry::destroy_result_window;
use overlay_core::window_state::{InteractionMode, RefineContext, SpeakerAction, WindowState};

fn state(text: &str) -> WindowState {
    WindowState::new(
        RefineContext::NoContext,
        "m".to_string(),
        "p".to_string(),
        false,
        false,
        String::new(),
        0,
        "plain",
        text.to_string(),
        "standard".to_string(),
    )
}

fn with_token(text: &str, token: Option<u64>) -> WindowState {
    let mut s = state(text);
    s.cancellation_token = token;
    s
}

fn sorted(mut v: Vec<isize>) -> Vec<isize> {
    v.sort();
    v
}

#[test]
fn insert_get_remove() {
    let mut reg = WindowRegistry::new();
    assert_eq!(reg.len(), 0);
    reg.insert(10, state("a"));
    reg.insert(20, state("b"));
    reg.insert(10, state("c"));
    assert_eq!(reg.len(), 2);
    assert!(reg.contains(20));
    assert_eq!(reg.get(10).unwrap().texts.full_text, "c");
    assert_eq!(reg.remove(10).unwrap().texts.full_text, "c");
    assert!(reg.remove(10).is_none());
    assert!(reg.get(10).is_none());
    assert_eq!(reg.len(), 1);
}

#[test]
fn listing_windows_by_token_and_editing() {
    let mut reg = WindowRegistry::new();
    reg.insert(1, with_token("a", Some(5)));
    reg.insert(2, with_token("b", Some(5)));
    reg.insert(3, with_token("c", Some(6)));
    reg.insert(4, with_token("d", None));
    assert_eq!(sorted(trigger_close_all(&reg)), vec![1, 2, 3, 4]);
    assert_eq!(sorted(close_windows_with_token(&reg, 5)), vec![1, 2]);
    assert!(close_windows_with_token(&reg, 9).is_empty());
    assert!(reg.keys_where(KeyFilter::Editing).is_empty());
    assert!(!is_any_refine_active(&reg));
    assert_eq!(get_active_refine_parent(&reg), None);
    trigger_edit(&mut reg, 3);
    assert!(is_any_refine_active(&reg));
    assert_eq!(get_active_refine_parent(&reg), Some(3));
    trigger_refine_cancel(&mut reg, 3);
    assert!(!is_any_refine_active(&reg));
}

#[test]
fn destroying_a_window_closes_its_chain_and_stops_its_speech() {
    let mut reg = WindowRegistry::new();
    reg.insert(1, with_token("a", Some(5)));
    reg.insert(2, with_token("b", Some(5)));
    reg.insert(3, with_token("c", Some(5)));
    reg.insert(4, with_token("d", Some(7)));
    set_tts_request(&mut reg, 1, 42);
    let out = handle_destroy(&mut reg, 1);
    assert_eq!(out.tts_to_stop, Some(42));
    assert_eq!(sorted(out.to_close), vec![2, 3]);
    assert!(!reg.contains(1));
    let again = handle_destroy(&mut reg, 1);
    assert_eq!(again.tts_to_stop, None);
    assert!(again.to_close.is_empty());
    let lone = handle_destroy(&mut reg, 4);
    assert!(lone.to_close.is_empty());
}

#[test]
fn linked_windows_form_a_group() {
    let mut reg = WindowRegistry::new();
    reg.insert(1, state("a"));
    reg.insert(2, state("b"));
    reg.insert(3, state("c"));
    link_windows(&mut reg, 1, 2);
    assert_eq!(reg.get(1).unwrap().linked_window, Some(2));
    assert_eq!(reg.get(2).unwrap().linked_window, Some(1));
    assert_eq!(get_window_group(&reg, 1), vec![1, 2]);
    assert_eq!(get_window_group(&reg, 2), vec![2, 1]);
    assert_eq!(get_window_group(&reg, 3), vec![3]);
}

#[test]
fn a_shared_token_decides_the_group() {
    let mut reg = WindowRegistry::new();
    reg.insert(1, with_token("a", Some(8)));
    reg.insert(2, with_token("b", Some(8)));
    reg.insert(3, with_token("c", None));
    link_windows(&mut reg, 1, 3);
    assert_eq!(sorted(get_window_group(&reg, 1)), vec![1, 2]);
    assert_eq!(get_window_group(&reg, 3), vec![3, 1]);
}

#[test]
fn copy_marks_the_window_and_skips_empty_text() {
    let mut reg = WindowRegistry::new();
    reg.insert(1, state("hello"));
    reg.insert(2, state(""));
    assert_eq!(trigger_copy(&mut reg, 1), Some("hello".to_string()));
    assert!(reg.get(1).unwrap().copy_success);
    assert_eq!(trigger_copy(&mut reg, 2), None);
    assert!(!reg.get(2).unwrap().copy_success);
    assert_eq!(trigger_copy(&mut reg, 99), None);
    set_copy_success(&mut reg, 1, false);
    assert!(!reg.get(1).unwrap().copy_success);
}

#[test]
fn undo_and_redo_through_the_table() {
    let mut reg = WindowRegistry::new();
    let mut s = state("v2");
    s.texts.text_history.push("v1".to_string());
    s.is_markdown_mode = true;
    reg.insert(1, s);
    assert_eq!(trigger_undo(&mut reg, 1), Some(("v1".to_string(), true)));
    assert_eq!(reg.get(1).unwrap().texts.full_text, "v1");
    assert_eq!(trigger_undo(&mut reg, 1), None);
    assert_eq!(trigger_redo(&mut reg, 1), Some(("v2".to_string(), true)));
    assert_eq!(trigger_redo(&mut reg, 1), None);
    assert_eq!(trigger_undo(&mut reg, 5), None);
}

#[test]
fn refine_submit_through_the_table() {
    let mut reg = WindowRegistry::new();
    reg.insert(1, state("text"));
    assert_eq!(trigger_refine_submit(&mut reg, 1, "  "), None);
    assert_eq!(trigger_refine_submit(&mut reg, 7, "go"), None);
    let req = trigger_refine_submit(&mut reg, 1, "shorter").unwrap();
    assert_eq!(req, ("text".to_string(), "shorter".to_string()));
    let s = reg.get(1).unwrap();
    assert!(s.is_refining && !s.is_editing);
    assert_eq!(s.texts.text_history, vec!["text".to_string()]);
    assert_eq!(trigger_markdown_toggle(&mut reg, 1), None);
}

#[test]
fn markdown_toggle_and_speaker_through_the_table() {
    let mut reg = WindowRegistry::new();
    reg.insert(1, state("speak me"));
    assert_eq!(trigger_markdown_toggle(&mut reg, 1), Some(true));
    assert_eq!(trigger_markdown_toggle(&mut reg, 2), None);
    assert_eq!(trigger_speaker(&mut reg, 1, false), SpeakerAction::Start);
    assert!(reg.get(1).unwrap().tts.tts_loading);
    assert_eq!(trigger_speaker(&mut reg, 3, false), SpeakerAction::NoText);
}

#[test]
fn refine_text_and_window_text_updates() {
    let mut reg = WindowRegistry::new();
    reg.insert(1, state("x"));
    set_refine_text(&mut reg, 1, "typed", false);
    assert_eq!(reg.get(1).unwrap().input_text, "typed");
    set_refine_text(&mut reg, 1, "inserted", true);
    assert_eq!(reg.get(1).unwrap().input_text, "typed");
    update_window_text(&mut reg, 1, "new text");
    let s = reg.get(1).unwrap();
    assert_eq!(s.texts.full_text, "new text");
    assert_eq!(s.display.pending_text, Some("new text".to_string()));
    set_window_interaction_mode(&mut reg, 1, InteractionMode::DraggingWindow);
    assert!(matches!(reg.get(1).unwrap().drag.interaction_mode, InteractionMode::DraggingWindow));
}

#[test]
fn destroying_a_window_closes_its_refine_bar_and_canvas_entry() {
    let mut reg = WindowRegistry::new();
    reg.insert(1, with_token("a", Some(3)));
    reg.insert(2, with_token("b", Some(3)));
    let mut bars = RefineInputs::new();
    bars.show_refine_input(1, 101);
    bars.show_refine_input(2, 102);
    let mut canvas = CanvasWindows::new();
    canvas.register_markdown_window(1, Rect { left: 0, top: 0, right: 100, bottom: 50 });
    canvas.register_markdown_window(2, Rect { left: 200, top: 0, right: 300, bottom: 50 });
    let t = destroy_result_window(&mut reg, &mut bars, &mut canvas, 1);
    assert_eq!(t.outcome.to_close, vec![2]);
    assert_eq!(t.refine_child, Some(101));
    assert!(!t.hide_canvas);
    assert!(!bars.is_refine_input_active(1));
    assert!(bars.is_refine_input_active(2));
    assert!(!canvas.windows.contains_key(&1));
    let last = destroy_result_window(&mut reg, &mut bars, &mut canvas, 2);
    assert_eq!(last.refine_child, Some(102));
    assert!(last.hide_canvas);
    let gone = destroy_result_window(&mut reg, &mut bars, &mut canvas, 2);
    assert_eq!(gone.refine_child, None);
    assert!(gone.hide_canvas);
}

#[test]
fn canvas_entries_follow_their_windows() {
    let mut canvas = CanvasWindows::new();
    canvas.register_markdown_window(5, Rect { left: 10, top: 20, right: 110, bottom: 70 });
    assert_eq!(canvas.windows.get(&5), Some(&(10, 20, 100, 50)));
    canvas.update_window_position(5, Rect { left: 0, top: 0, right: 30, bottom: 40 });
    assert_eq!(canvas.windows.get(&5), Some(&(0, 0, 30, 40)));
    canvas.update_window_position(6, Rect { left: 0, top: 0, right: 30, bottom: 40 });
    assert!(!canvas.windows.contains_key(&6));
    assert!(canvas.unregister_markdown_window(5));
}
