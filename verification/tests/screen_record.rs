use overlay_core::layout::Rect;
use overlay_core::screen_record::{
    add_hotkey, asset_mime, build_hotkey, byte_range, centered_origin, cursor_type_label, get_monitors,
    hit_zone, hotkey_name, js_code_to_vk, monitor_index_of, monitor_info, page_message,
    range_response, recorder_command, recorder_request, recording_file_names, remove_hotkey, route_asset,
    Asset, HitZone, Hotkey, PageMessage, RecorderCommand, RecorderRequest, MOD_ALT, MOD_CONTROL, MOD_SHIFT, MOD_WIN,
};

fn rect(left: i32, top: i32, right: i32, bottom: i32) -> Rect {
    Rect { left, top, right, bottom }
}

#[test]
fn monitor_descriptions() {
    let m = monitor_info(0, rect(-1920, 0, 0, 1080), 1);
    assert_eq!(m.id, "0");
    assert_eq!(m.name, "Display 1");
    assert_eq!((m.x, m.y, m.width, m.height, m.is_primary), (-1920, 0, 1920, 1080, true));
    let second = monitor_info(1, rect(0, 0, 2560, 1440), 0);
    assert_eq!(second.name, "Display 2");
    assert!(!second.is_primary);
}

#[test]
fn unreadable_monitors_keep_their_number() {
    let found = vec![Some((rect(0, 0, 100, 100), 1)), None, Some((rect(100, 0, 300, 100), 0))];
    let ms = get_monitors(&found);
    assert_eq!(ms.len(), 2);
    assert_eq!(ms[0].id, "0");
    assert_eq!(ms[1].id, "2");
    assert_eq!(ms[1].name, "Display 3");
    assert_eq!(ms[1].width, 200);
}

#[test]
fn chosen_monitor_index() {
    assert_eq!(monitor_index_of(Some("2")), 2);
    assert_eq!(monitor_index_of(Some("x")), 0);
    assert_eq!(monitor_index_of(None), 0);
}

#[test]
fn recording_files_are_named_by_time() {
    let (v, a) = recording_file_names(1700000000123);
    assert_eq!(v, "recording_1700000000123.mp4");
    assert_eq!(a, "recording_1700000000123.wav");
}

#[test]
fn cursor_labels() {
    assert_eq!(cursor_type_label(false, false, true, false), "default");
    assert_eq!(cursor_type_label(true, true, false, false), "default");
    assert_eq!(cursor_type_label(true, false, true, false), "text");
    assert_eq!(cursor_type_label(true, false, false, true), "pointer");
    assert_eq!(cursor_type_label(true, false, false, false), "other");
}

#[test]
fn browser_key_codes_to_virtual_keys() {
    assert_eq!(js_code_to_vk("KeyA"), Some(0x41));
    assert_eq!(js_code_to_vk("Digit7"), Some(0x37));
    assert_eq!(js_code_to_vk("F1"), Some(0x70));
    assert_eq!(js_code_to_vk("F12"), Some(0x7B));
    assert_eq!(js_code_to_vk("Space"), Some(0x20));
    assert_eq!(js_code_to_vk("Escape"), Some(0x1B));
    assert_eq!(js_code_to_vk("Slash"), Some(0xBF));
    assert_eq!(js_code_to_vk("Numpad5"), Some(0x65));
    assert_eq!(js_code_to_vk("KeyAB"), None);
    assert_eq!(js_code_to_vk("Fx"), None);
    assert_eq!(js_code_to_vk("F123"), None);
    assert_eq!(js_code_to_vk("ShiftLeft"), None);
}

#[test]
fn hotkey_names_list_the_modifiers_first() {
    assert_eq!(hotkey_name(MOD_CONTROL | MOD_SHIFT, "a"), "Ctrl + Shift + A");
    assert_eq!(hotkey_name(MOD_ALT | MOD_WIN | MOD_CONTROL, "F5"), "Ctrl + Alt + Win + F5");
    assert_eq!(hotkey_name(0, "é"), "é");
}

#[test]
fn hotkeys_are_built_from_the_page_request() {
    let names = vec![Some("Control".to_string()), Some("Alt".to_string()), None];
    let h = build_hotkey(Some("KeyR"), Some(&names), Some("r")).unwrap();
    assert_eq!((h.code, h.modifiers), (0x52, MOD_CONTROL | MOD_ALT));
    assert_eq!(h.name, "Ctrl + Alt + R");
    let unknown = build_hotkey(Some("Digit1"), Some(&vec![]), None).unwrap();
    assert_eq!(unknown.name, "Unknown");
    assert_eq!(build_hotkey(None, Some(&names), None).err(), Some("Missing code".to_string()));
    assert_eq!(build_hotkey(Some("KeyR"), None, None).err(), Some("Missing modifiers".to_string()));
    assert_eq!(
        build_hotkey(Some("Pause"), Some(&names), None).err(),
        Some("Unsupported key code: Pause".to_string())
    );
}

#[test]
fn hotkeys_are_removed_by_index() {
    let mut hs = vec![
        Hotkey { code: 1, modifiers: 0, name: "a".to_string() },
        Hotkey { code: 2, modifiers: 0, name: "b".to_string() },
    ];
    assert_eq!(remove_hotkey(&mut hs, Some(5)), Ok(false));
    assert_eq!(hs.len(), 2);
    assert_eq!(remove_hotkey(&mut hs, Some(0)), Ok(true));
    assert_eq!(hs.len(), 1);
    assert_eq!(hs[0].code, 2);
    assert_eq!(remove_hotkey(&mut hs, None), Err("Missing index".to_string()));
}

#[test]
fn range_headers() {
    assert_eq!(byte_range(None, 1000), (0, 999));
    assert_eq!(byte_range(Some("bytes=100-199"), 1000), (100, 199));
    assert_eq!(byte_range(Some("bytes=500-"), 1000), (500, 999));
    assert_eq!(byte_range(Some("bytes=-5"), 1000), (0, 5));
    assert_eq!(byte_range(Some("bytes=1-2-3"), 1000), (0, 999));
    assert_eq!(byte_range(Some("items=1-2"), 1000), (0, 999));
    assert_eq!(byte_range(None, 0), (0, 0));
}

#[test]
fn range_responses() {
    let whole = range_response(0, 999, 1000);
    assert_eq!((whole.status, whole.length), (200, 1000));
    assert!(whole.content_range.is_none());
    let part = range_response(100, 199, 1000);
    assert_eq!((part.status, part.length), (206, 100));
    assert_eq!(part.content_range, Some("bytes 100-199/1000".to_string()));
}

#[test]
fn recorder_window_placement_and_hit_test() {
    assert_eq!(centered_origin(1920, 1080, 1000, 700), (460, 190));
    let r = rect(100, 100, 500, 400);
    assert_eq!(hit_zone(r, 101, 101), HitZone::TopLeft);
    assert_eq!(hit_zone(r, 499, 101), HitZone::TopRight);
    assert_eq!(hit_zone(r, 300, 103), HitZone::Top);
    assert_eq!(hit_zone(r, 101, 399), HitZone::BottomLeft);
    assert_eq!(hit_zone(r, 495, 395), HitZone::BottomRight);
    assert_eq!(hit_zone(r, 300, 399), HitZone::Bottom);
    assert_eq!(hit_zone(r, 102, 300), HitZone::Left);
    assert_eq!(hit_zone(r, 497, 300), HitZone::Right);
    assert_eq!(hit_zone(r, 300, 300), HitZone::Client);
}

#[test]
fn page_files_and_their_types() {
    assert_eq!(route_asset("/"), Some(Asset::IndexHtml));
    assert_eq!(route_asset("/index.html"), Some(Asset::IndexHtml));
    assert_eq!(route_asset("/assets/index.js"), Some(Asset::IndexJs));
    assert_eq!(route_asset("/assets/index.css"), Some(Asset::IndexCss));
    assert_eq!(route_asset("/pointer.svg"), Some(Asset::PointerSvg));
    assert_eq!(route_asset("/missing.txt"), None);
    assert_eq!(asset_mime(Asset::IndexJs), "application/javascript");
    assert_eq!(asset_mime(Asset::TauriSvg), "image/svg+xml");
    assert_eq!(asset_mime(Asset::ScreenshotPng), "image/png");
}

#[test]
fn page_messages_and_commands() {
    assert_eq!(page_message("drag_window"), PageMessage::DragWindow);
    assert_eq!(page_message("close_window"), PageMessage::CloseWindow);
    assert_eq!(page_message("{\"cmd\":\"x\"}"), PageMessage::Request);
    assert_eq!(recorder_command("get_monitors"), Ok(RecorderCommand::GetMonitors));
    assert_eq!(recorder_command("is_maximized"), Ok(RecorderCommand::IsMaximized));
    assert_eq!(recorder_command("fly"), Err("Unknown command: fly".to_string()));
}

#[test]
fn a_built_hotkey_is_added_unless_it_conflicts() {
    let names = vec![Some("Shift".to_string()), Some("Control".to_string())];
    let h = build_hotkey(Some("KeyK"), Some(&names), Some("k")).unwrap();
    assert_eq!((h.code, h.modifiers, h.name.as_str()), (75, MOD_CONTROL | MOD_SHIFT, "Ctrl + Shift + K"));
    let mut hs = Vec::new();
    assert_eq!(add_hotkey(&mut hs, h, None), Ok(()));
    assert_eq!(hs.len(), 1);
    let again = build_hotkey(Some("KeyK"), Some(&names), Some("k")).unwrap();
    assert_eq!(add_hotkey(&mut hs, again, Some("Already used".to_string())), Err("Already used".to_string()));
    assert_eq!(hs.len(), 1);
}

fn hotkey(code: u32, modifiers: u32, name: &str) -> Hotkey {
    Hotkey { code, modifiers, name: name.to_string() }
}

#[test]
fn recorder_request_reads_the_command_and_its_arguments() {
    let mut hs = Vec::new();
    let start = r#"{"id":"1","cmd":"start_recording","args":{"monitorId":"2"}}"#;
    assert!(matches!(recorder_request(start, &mut hs), Ok(RecorderRequest::StartRecording(2))));
    let default = r#"{"id":"1","cmd":"start_recording","args":{}}"#;
    assert!(matches!(recorder_request(default, &mut hs), Ok(RecorderRequest::StartRecording(0))));
    let stop = r#"{"id":"7","cmd":"stop_recording","args":null}"#;
    assert!(matches!(
        recorder_request(stop, &mut hs),
        Ok(RecorderRequest::Command(RecorderCommand::StopRecording))
    ));
}

#[test]
fn recorder_request_builds_the_hotkey_to_set() {
    let mut hs = Vec::new();
    let body = r#"{"id":"3","cmd":"set_hotkey","args":{"code":"KeyR","modifiers":["Control","Alt",5],"key":"r"}}"#;
    match recorder_request(body, &mut hs) {
        Ok(RecorderRequest::SetHotkey(h)) => {
            assert_eq!((h.code, h.modifiers, h.name.as_str()), (82, MOD_CONTROL | MOD_ALT, "Ctrl + Alt + R"))
        }
        _ => panic!("expected a hotkey"),
    }
    let no_mods = r#"{"id":"3","cmd":"set_hotkey","args":{"code":"KeyR"}}"#;
    assert_eq!(recorder_request(no_mods, &mut hs).err(), Some("Missing modifiers".to_string()));
    let no_code = r#"{"id":"3","cmd":"set_hotkey","args":{"modifiers":[]}}"#;
    assert_eq!(recorder_request(no_code, &mut hs).err(), Some("Missing code".to_string()));
    let bad = r#"{"id":"3","cmd":"set_hotkey","args":{"code":"Pause","modifiers":[]}}"#;
    assert_eq!(recorder_request(bad, &mut hs).err(), Some("Unsupported key code: Pause".to_string()));
    assert!(hs.is_empty());
}

#[test]
fn recorder_request_removes_a_hotkey_within_the_list() {
    let mut hs = vec![hotkey(82, MOD_ALT, "Alt + R"), hotkey(75, MOD_SHIFT, "Shift + K")];
    let body = r#"{"id":"4","cmd":"remove_hotkey","args":{"index":0}}"#;
    assert!(matches!(
        recorder_request(body, &mut hs),
        Ok(RecorderRequest::Command(RecorderCommand::RemoveHotkey))
    ));
    assert_eq!(hs.len(), 1);
    assert_eq!(hs[0].name, "Shift + K");
    let beyond = r#"{"id":"4","cmd":"remove_hotkey","args":{"index":5}}"#;
    assert!(recorder_request(beyond, &mut hs).is_ok());
    assert_eq!(hs.len(), 1);
    let missing = r#"{"id":"4","cmd":"remove_hotkey","args":{"index":"0"}}"#;
    assert_eq!(recorder_request(missing, &mut hs).err(), Some("Missing index".to_string()));
    assert_eq!(hs.len(), 1);
}

#[test]
fn recorder_request_ignores_what_is_not_a_request() {
    let mut hs = Vec::new();
    assert!(matches!(recorder_request("not json", &mut hs), Ok(RecorderRequest::NotARequest)));
    let no_id = r#"{"cmd":"get_hotkeys","args":{}}"#;
    assert!(matches!(recorder_request(no_id, &mut hs), Ok(RecorderRequest::NotARequest)));
    let no_args = r#"{"id":"1","cmd":"get_hotkeys"}"#;
    assert!(matches!(recorder_request(no_args, &mut hs), Ok(RecorderRequest::NotARequest)));
    let unknown = r#"{"id":"1","cmd":"fly","args":{}}"#;
    assert_eq!(recorder_request(unknown, &mut hs).err(), Some("Unknown command: fly".to_string()));
}
