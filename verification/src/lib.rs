//! Verified core of the result-overlay subsystem: window layout, per-window
//! state transitions, window grouping, HTML/markdown text processing,
//! hotkey and IPC decoding, and the small state machines that drive the
//! selection, recording and realtime overlays.

pub mod canvas;
pub mod html;
pub mod ipc;
pub mod layout;
pub mod markdown;
pub mod numbers;
pub mod realtime;
pub mod refine_input;
pub mod recording;
pub mod registry;
pub mod screen_record;
pub mod selection;
pub mod text;
pub mod text_fit;
pub mod window_state;
