use overlay_core::layout::{Point, Rect};
use overlay_core::selection::{
    bgra_to_rgba, color_hex, crop_geometry, frame_box, layer_cache_stale, effective_alpha, fade_step, fill_dim,
    hotkey_display_name, secure_box_alpha, selection_key_event, selection_outcome,
    should_activate_continuous, FadeStep, KeyDecision, SelectionOutcome, SelectionState, VK_ESCAPE,
};

#[test]
fn a_click_picks_a_colour_and_a_drag_captures() {
    assert_eq!(selection_outcome(Point { x: 5, y: 5 }, Point { x: 15, y: 12 }), SelectionOutcome::PickColor);
    assert_eq!(
        selection_outcome(Point { x: 100, y: 80 }, Point { x: 20, y: 10 }),
        SelectionOutcome::Capture(Rect { left: 20, top: 10, right: 100, bottom: 80 })
    );
    assert_eq!(selection_outcome(Point { x: 0, y: 0 }, Point { x: 300, y: 5 }), SelectionOutcome::Close);
}

#[test]
fn colours_are_written_red_green_blue() {
    assert_eq!(color_hex(0x00332211), "#112233");
    assert_eq!(color_hex(0x00FFFFFF), "#FFFFFF");
    assert_eq!(color_hex(0x0000000A), "#0A0000");
}

#[test]
fn fading_in_and_out() {
    assert_eq!(fade_step(0, false), FadeStep::Changed(40));
    assert_eq!(fade_step(100, false), FadeStep::Changed(120));
    assert_eq!(fade_step(120, false), FadeStep::Settled);
    assert_eq!(fade_step(120, true), FadeStep::Changed(80));
    assert_eq!(fade_step(40, true), FadeStep::Finished);
    assert_eq!(effective_alpha(120, Some(60)), 60);
    assert_eq!(effective_alpha(30, Some(60)), 30);
    assert_eq!(effective_alpha(90, None), 90);
}

#[test]
fn escape_or_a_second_press_of_the_hotkey_aborts() {
    let trigger = 0x51;
    assert_eq!(selection_key_event(VK_ESCAPE, true, trigger, true), KeyDecision { abort: true, hotkey_held: true });
    assert_eq!(selection_key_event(trigger, true, trigger, true), KeyDecision { abort: false, hotkey_held: true });
    assert_eq!(selection_key_event(trigger, false, trigger, true), KeyDecision { abort: false, hotkey_held: false });
    assert_eq!(selection_key_event(trigger, true, trigger, false), KeyDecision { abort: true, hotkey_held: false });
    assert_eq!(selection_key_event(0x41, false, trigger, true), KeyDecision { abort: false, hotkey_held: true });
}

#[test]
fn continuous_mode_and_hotkey_name() {
    assert!(should_activate_continuous(false, false, true, false));
    assert!(!should_activate_continuous(false, false, true, true));
    assert!(!should_activate_continuous(true, false, true, false));
    assert_eq!(hotkey_display_name(""), "Hotkey");
    assert_eq!(hotkey_display_name("Ctrl + Q"), "Ctrl + Q");
}

#[test]
fn dimming_fills_every_pixel() {
    let mut px = vec![0u32; 6];
    fill_dim(&mut px, 120);
    assert!(px.iter().all(|&p| p == 120u32 << 24));
}

#[test]
fn drawn_pixels_around_the_box_become_opaque_white() {
    let width = 20;
    let height = 20;
    let mut px = vec![0u32; (width * height) as usize];
    px[(10 * width + 10) as usize] = 0x00FF_FFFF;
    px[(10 * width + 2) as usize] = 0x0000_0505;
    px[0] = 0x00FF_FFFF;
    secure_box_alpha(&mut px, width, height, Rect { left: 8, top: 8, right: 12, bottom: 12 });
    assert_eq!(px[(10 * width + 10) as usize], 0xFFFF_FFFF);
    assert_eq!(px[(10 * width + 2) as usize], 0x0000_0505);
    assert_eq!(px[0], 0x00FF_FFFF);
}

#[test]
fn captured_pixels_are_turned_into_opaque_rgba() {
    let mut buf = vec![1u8, 2, 3, 4, 10, 20, 30, 40, 9];
    bgra_to_rgba(&mut buf);
    assert_eq!(buf, vec![3, 2, 1, 255, 30, 20, 10, 255, 9]);
}

#[test]
fn crop_of_the_virtual_screen() {
    let g = crop_geometry(Rect { left: 100, top: 50, right: 40, bottom: 250 }, -1920, 0);
    assert_eq!(g, (60, 200, 2020, 50));
}

#[test]
fn the_box_is_drawn_only_while_dragging_a_real_area() {
    let a = Point { x: -100, y: 50 };
    let b = Point { x: -20, y: 10 };
    assert_eq!(frame_box(false, a, b, -1920, 0), None);
    assert_eq!(frame_box(true, a, b, -1920, 0), Some(Rect { left: 1820, top: 10, right: 1900, bottom: 50 }));
    assert_eq!(frame_box(true, a, Point { x: -100, y: 90 }, 0, 0), None);
    assert!(layer_cache_stale(false, 10, 10, 10, 10));
    assert!(layer_cache_stale(true, 10, 10, 20, 10));
    assert!(!layer_cache_stale(true, 10, 10, 10, 10));
}

#[test]
fn releasing_a_click_picks_a_colour_and_fades_out() {
    let mut s = SelectionState::new();
    s.on_left_button_down(Point { x: 40, y: 40 });
    assert!(s.dragging);
    s.on_mouse_move(Point { x: 44, y: 43 });
    assert_eq!(s.on_left_button_up(), Some(SelectionOutcome::PickColor));
    assert!(!s.dragging && s.fading_out);
    s.on_left_button_down(Point { x: 0, y: 0 });
    assert!(!s.dragging);
    assert_eq!(s.on_left_button_up(), None);
}

#[test]
fn releasing_a_drag_captures_the_area_and_fades_out() {
    let mut s = SelectionState::new();
    s.on_left_button_down(Point { x: 200, y: 150 });
    s.on_mouse_move(Point { x: 100, y: 50 });
    assert_eq!(
        s.on_left_button_up(),
        Some(SelectionOutcome::Capture(Rect { left: 100, top: 50, right: 200, bottom: 150 }))
    );
    assert!(!s.dragging && s.fading_out);
}

#[test]
fn releasing_a_thin_strip_closes_without_fading() {
    let mut s = SelectionState::new();
    s.on_mouse_move(Point { x: 9, y: 9 });
    assert_eq!(s.current, Point { x: 0, y: 0 });
    s.on_left_button_down(Point { x: 10, y: 10 });
    s.on_mouse_move(Point { x: 300, y: 15 });
    assert_eq!(s.on_left_button_up(), Some(SelectionOutcome::Close));
    assert!(!s.dragging && !s.fading_out);
}
