use overlay_core::ipc::{
    canvas_message_of, handle_ipc_message, handle_markdown_ipc, markdown_action_of, CanvasAction,
    CanvasMessage, MarkdownAction,
};

#[test]
fn markdown_view_actions_from_json() {
    assert_eq!(handle_markdown_ipc(r#"{"action":"copy"}"#), MarkdownAction::Copy);
    assert_eq!(handle_markdown_ipc(r#"{"action":"broom_click"}"#), MarkdownAction::Close);
    assert_eq!(handle_markdown_ipc(r#"{"action":"close"}"#), MarkdownAction::Close);
    assert_eq!(handle_markdown_ipc(r#"{"action":"broom_drag_start"}"#), MarkdownAction::DragStart);
    assert_eq!(handle_markdown_ipc(r#"{"action":"dance"}"#), MarkdownAction::Nothing);
    assert_eq!(handle_markdown_ipc(r#"{"action":3}"#), MarkdownAction::Nothing);
    assert_eq!(handle_markdown_ipc("not json"), MarkdownAction::Nothing);
    assert_eq!(markdown_action_of(None), MarkdownAction::Nothing);
}

#[test]
fn canvas_messages_from_json() {
    assert_eq!(
        handle_ipc_message(r#"{"action":"copy","hwnd":"1234"}"#),
        CanvasMessage { action: CanvasAction::Copy, hwnd: 1234 }
    );
    assert_eq!(
        handle_ipc_message(r#"{"action":"broom_middle","hwnd":"-7"}"#),
        CanvasMessage { action: CanvasAction::CloseAll, hwnd: -7 }
    );
    assert_eq!(
        handle_ipc_message(r#"{"action":"undo"}"#),
        CanvasMessage { action: CanvasAction::Nothing, hwnd: 0 }
    );
    assert_eq!(
        handle_ipc_message(r#"{"action":"update_clickable_regions"}"#),
        CanvasMessage { action: CanvasAction::UpdateClickableRegions, hwnd: 0 }
    );
    assert_eq!(handle_ipc_message("{").action, CanvasAction::Nothing);
}

#[test]
fn every_canvas_action_name() {
    let cases = [
        ("broom_right", CanvasAction::Copy),
        ("redo", CanvasAction::Redo),
        ("edit", CanvasAction::Edit),
        ("markdown", CanvasAction::Markdown),
        ("download", CanvasAction::Download),
        ("back", CanvasAction::Back),
        ("forward", CanvasAction::Forward),
        ("speaker", CanvasAction::Speaker),
        ("broom_click", CanvasAction::Close),
        ("broom_drag", CanvasAction::Drag),
        ("other", CanvasAction::Nothing),
    ];
    for (name, action) in cases {
        assert_eq!(canvas_message_of(Some(name), Some("5")).action, action);
    }
    assert_eq!(canvas_message_of(Some("copy"), Some("abc")).hwnd, 0);
    assert_eq!(canvas_message_of(None, Some("5")).action, CanvasAction::Nothing);
}
