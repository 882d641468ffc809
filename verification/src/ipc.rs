//! Messages from the web pages of the overlay: the markdown view and the
//! floating button canvas send JSON objects naming an action.

use vstd::prelude::*;
use crate::numbers::{parse_isize, parse_signed};
use crate::screen_record::names_view;
use crate::text::{owned, str_eq};

verus! {

/// The string that serde_json finds under `key` in the JSON object `text`:
/// `None` when the text is not JSON, not an object, has no such key, or
/// holds no string there.
pub uninterp spec fn json_string_field(text: Seq<char>, key: Seq<char>) -> Option<Seq<char>>;

/// `serde_json::from_str::<serde_json::Value>`, then `Value::get(key)` and
/// `Value::as_str`. The contract names the result and says nothing more.
#[verifier::external_body]
pub(crate) fn json_str_field(text: &str, key: &str) -> (r: Option<String>)
    ensures
        match r {
            Some(s) => json_string_field(text@, key@) == Some(s@),
            None => json_string_field(text@, key@) is None,
        },
{
    serde_json::from_str::<serde_json::Value>(text).ok()?.get(key)?.as_str().map(String::from)
}

/// Whether serde_json finds the key `key` in the JSON object `text`,
/// whatever it holds there.
pub uninterp spec fn json_field_present(text: Seq<char>, key: Seq<char>) -> bool;

/// `serde_json::from_str::<serde_json::Value>`, then `Value::get(key)`,
/// tested for `Some`. The contract names the result and says nothing more.
#[verifier::external_body]
pub(crate) fn has_json_field(text: &str, key: &str) -> (r: bool)
    ensures
        r == json_field_present(text@, key@),
{
    match serde_json::from_str::<serde_json::Value>(text) {
        Ok(v) => v.get(key).is_some(),
        Err(_) => false,
    }
}

/// The string that serde_json finds under `key` in the object under
/// `args` of the JSON object `text`; `None` where any of these is missing
/// or the value there is not a string.
pub uninterp spec fn json_args_str(text: Seq<char>, key: Seq<char>) -> Option<Seq<char>>;

/// `serde_json::from_str::<serde_json::Value>`, then `Value::get("args")`,
/// `Value::get(key)` and `Value::as_str`. The contract names the result
/// and says nothing more.
#[verifier::external_body]
pub(crate) fn read_args_str(text: &str, key: &str) -> (r: Option<String>)
    ensures
        match r {
            Some(s) => json_args_str(text@, key@) == Some(s@),
            None => json_args_str(text@, key@) is None,
        },
{
    serde_json::from_str::<serde_json::Value>(text).ok()?.get("args")?.get(key)?.as_str().map(String::from)
}

/// The array that serde_json finds under `key` in the object under `args`
/// of the JSON object `text`, each entry as its string or `None` where it
/// is not a string; `None` where any of these is missing or the value
/// there is not an array.
pub uninterp spec fn json_args_str_list(text: Seq<char>, key: Seq<char>) -> Option<Seq<Option<Seq<char>>>>;

/// `serde_json::from_str::<serde_json::Value>`, then `Value::get("args")`,
/// `Value::get(key)`, `Value::as_array` and `Value::as_str` on each entry.
/// The contract names the result and says nothing more.
#[verifier::external_body]
pub(crate) fn read_args_str_list(text: &str, key: &str) -> (r: Option<Vec<Option<String>>>)
    ensures
        match r {
            Some(v) => json_args_str_list(text@, key@) == Some(names_view(v@)),
            None => json_args_str_list(text@, key@) is None,
        },
{
    let v = serde_json::from_str::<serde_json::Value>(text).ok()?;
    let items = v.get("args")?.get(key)?.as_array()?;
    Some(items.iter().map(|m| m.as_str().map(String::from)).collect())
}

/// The unsigned integer that serde_json finds under `key` in the object
/// under `args` of the JSON object `text`; `None` where any of these is
/// missing or the value there is not an integer that fits in a `u64`.
pub uninterp spec fn json_args_u64(text: Seq<char>, key: Seq<char>) -> Option<u64>;

/// `serde_json::from_str::<serde_json::Value>`, then `Value::get("args")`,
/// `Value::get(key)` and `Value::as_u64`. The contract names the result
/// and says nothing more.
#[verifier::external_body]
pub(crate) fn read_args_u64(text: &str, key: &str) -> (r: Option<u64>)
    ensures
        r == json_args_u64(text@, key@),
{
    serde_json::from_str::<serde_json::Value>(text).ok()?.get("args")?.get(key)?.as_u64()
}

/// An action of the markdown view's page.
#[derive(Clone, Copy, Debug, PartialEq, Eq, Structural)]
pub enum MarkdownAction {
    Copy,
    Close,
    /// Start dragging the window.
    DragStart,
    Nothing,
}

/// The action named by `action`.
pub open spec fn spec_markdown_action(action: Option<Seq<char>>) -> MarkdownAction {
    match action {
        Some(a) => if a == "copy"@ {
            MarkdownAction::Copy
        } else if a == "close"@ || a == "broom_click"@ {
            MarkdownAction::Close
        } else if a == "broom_drag_start"@ {
            MarkdownAction::DragStart
        } else {
            MarkdownAction::Nothing
        },
        None => MarkdownAction::Nothing,
    }
}

/// The action a message of the markdown view asks for, from the named
/// result of reading its `action` field.
pub fn markdown_action_of(action: Option<&str>) -> (a: MarkdownAction)
    ensures
        a == spec_markdown_action(
            match action {
                Some(s) => Some(s@),
                None => None,
            },
        ),
{
    match action {
        Some(s) => if str_eq(s, "copy") {
            MarkdownAction::Copy
        } else if str_eq(s, "close") || str_eq(s, "broom_click") {
            MarkdownAction::Close
        } else if str_eq(s, "broom_drag_start") {
            MarkdownAction::DragStart
        } else {
            MarkdownAction::Nothing
        },
        None => MarkdownAction::Nothing,
    }
}

/// The action a JSON message of the markdown view asks for.
pub fn handle_markdown_ipc(msg: &str) -> (a: MarkdownAction)
    ensures
        a == spec_markdown_action(json_string_field(msg@, "action"@)),
{
    let action = json_str_field(msg, "action");
    match action {
        Some(s) => markdown_action_of(Some(s.as_str())),
        None => markdown_action_of(None),
    }
}

/// An action of the button canvas.
#[derive(Clone, Copy, Debug, PartialEq, Eq, Structural)]
pub enum CanvasAction {
    /// The page's clickable regions changed (they are in the message).
    UpdateClickableRegions,
    Copy,
    Undo,
    Redo,
    Edit,
    Markdown,
    Download,
    Back,
    Forward,
    Speaker,
    /// Close the window.
    Close,
    /// Close every result window.
    CloseAll,
    /// Move the window's group (the offsets are in the message).
    Drag,
    Nothing,
}

/// A message of the button canvas: the action and the window it is for.
#[derive(Clone, Copy, Debug, PartialEq, Eq, Structural)]
pub struct CanvasMessage {
    pub action: CanvasAction,
    pub hwnd: isize,
}

/// The window a canvas message names: its `hwnd` field as a number, or 0.
pub open spec fn canvas_hwnd(hwnd: Option<Seq<char>>) -> int {
    let s = match hwnd {
        Some(h) => h,
        None => "0"@,
    };
    match parse_signed(s, isize::MAX as nat) {
        Some(v) => v,
        None => 0,
    }
}

/// The action of a canvas message for window `hwnd`; a message for no
/// window (0) does nothing, except the update of the clickable regions.
pub open spec fn spec_canvas_action(action: Seq<char>, hwnd: int) -> CanvasAction {
    if action == "update_clickable_regions"@ {
        CanvasAction::UpdateClickableRegions
    } else if hwnd == 0 {
        CanvasAction::Nothing
    } else if action == "copy"@ || action == "broom_right"@ {
        CanvasAction::Copy
    } else if action == "undo"@ {
        CanvasAction::Undo
    } else if action == "redo"@ {
        CanvasAction::Redo
    } else if action == "edit"@ {
        CanvasAction::Edit
    } else if action == "markdown"@ {
        CanvasAction::Markdown
    } else if action == "download"@ {
        CanvasAction::Download
    } else if action == "back"@ {
        CanvasAction::Back
    } else if action == "forward"@ {
        CanvasAction::Forward
    } else if action == "speaker"@ {
        CanvasAction::Speaker
    } else if action == "broom_click"@ {
        CanvasAction::Close
    } else if action == "broom_middle"@ {
        CanvasAction::CloseAll
    } else if action == "broom_drag"@ {
        CanvasAction::Drag
    } else {
        CanvasAction::Nothing
    }
}

/// The message of the button canvas from its `action` and `hwnd` fields
/// (a missing action reads as empty).
pub fn canvas_message_of(action: Option<&str>, hwnd: Option<&str>) -> (m: CanvasMessage)
    ensures
        m.hwnd == canvas_hwnd(
            match hwnd {
                Some(h) => Some(h@),
                None => None,
            },
        ),
        m.action == spec_canvas_action(
            match action {
                Some(a) => a@,
                None => ""@,
            },
            m.hwnd as int,
        ),
{
    let h = match parse_isize(match hwnd {
        Some(s) => s,
        None => "0",
    }) {
        Some(v) => v,
        None => 0,
    };
    let a = match action {
        Some(s) => s,
        None => "",
    };
    let action = if str_eq(a, "update_clickable_regions") {
        CanvasAction::UpdateClickableRegions
    } else if h == 0 {
        CanvasAction::Nothing
    } else if str_eq(a, "copy") || str_eq(a, "broom_right") {
        CanvasAction::Copy
    } else if str_eq(a, "undo") {
        CanvasAction::Undo
    } else if str_eq(a, "redo") {
        CanvasAction::Redo
    } else if str_eq(a, "edit") {
        CanvasAction::Edit
    } else if str_eq(a, "markdown") {
        CanvasAction::Markdown
    } else if str_eq(a, "download") {
        CanvasAction::Download
    } else if str_eq(a, "back") {
        CanvasAction::Back
    } else if str_eq(a, "forward") {
        CanvasAction::Forward
    } else if str_eq(a, "speaker") {
        CanvasAction::Speaker
    } else if str_eq(a, "broom_click") {
        CanvasAction::Close
    } else if str_eq(a, "broom_middle") {
        CanvasAction::CloseAll
    } else if str_eq(a, "broom_drag") {
        CanvasAction::Drag
    } else {
        CanvasAction::Nothing
    };
    CanvasMessage { action, hwnd: h }
}

/// The message of the button canvas in the JSON text `body`.
pub fn handle_ipc_message(body: &str) -> (m: CanvasMessage)
    ensures
        m.hwnd == canvas_hwnd(json_string_field(body@, "hwnd"@)),
        m.action == spec_canvas_action(
            match json_string_field(body@, "action"@) {
                Some(a) => a,
                None => ""@,
            },
            m.hwnd as int,
        ),
{
    let action = json_str_field(body, "action");
    let hwnd = json_str_field(body, "hwnd");
    let a = match &action {
        Some(s) => Some(s.as_str()),
        None => None,
    };
    let h = match &hwnd {
        Some(s) => Some(s.as_str()),
        None => None,
    };
    canvas_message_of(a, h)
}

} // verus!
