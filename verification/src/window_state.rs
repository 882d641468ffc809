//! State of one result window and the transitions its buttons, timers and
//! navigation events perform on it.

use vstd::prelude::*;
use crate::layout::{
    max_int,
    abs_int, button_rect, coord_ok, div2_trunc, get_copy_btn_rect, get_download_btn_rect,
    get_edit_btn_rect, get_markdown_btn_rect, get_redo_btn_rect, get_speaker_btn_rect,
    get_undo_btn_rect, mk_rect, point_in_padded_rect, should_show_buttons, spec_point_in_padded,
    wide_ok, Point, Rect, ResizeEdge, MIN_WIDTH_FOR_BUTTONS, rect_ok, resized_window_rect,
    spec_resized_rect, get_resize_edge, spec_resize_edge,
};
use crate::text_fit::spec_text_box;
use crate::text::{
    contains_chars, contains_seq, is_blank, is_blank_str, owned, starts_with, starts_with_chars,
    str_eq, to_chars,
};

verus! {

/// Data kept for refining a result: the captured image or audio, if any.
#[derive(Clone)]
pub enum RefineContext {
    NoContext,
    Image(Vec<u8>),
    Audio(Vec<u8>),
}

/// What the mouse is currently doing to the window.
#[derive(Clone)]
pub enum InteractionMode {
    Idle,
    DraggingWindow,
    /// Dragging a group: each member's key and its rectangle at drag start.
    DraggingGroup(Vec<(isize, Rect)>),
    Resizing(ResizeEdge),
    ResizingGroup(Vec<(isize, Rect)>, ResizeEdge),
}

/// Hover state of the buttons inside a result window.
#[derive(Clone, Copy, Debug, PartialEq, Eq, Structural)]
pub struct ButtonHover {
    pub on_copy_btn: bool,
    pub on_edit_btn: bool,
    pub on_undo_btn: bool,
    pub on_redo_btn: bool,
    pub on_markdown_btn: bool,
    pub on_back_btn: bool,
    pub on_forward_btn: bool,
    pub on_download_btn: bool,
    pub on_speaker_btn: bool,
}

/// Browsing state of the markdown view.
#[derive(Clone, Copy, Debug, PartialEq, Eq, Structural)]
pub struct Navigation {
    /// True when the user has navigated away from the result.
    pub is_browsing: bool,
    /// How many pages deep from the result (0 = at the result).
    pub navigation_depth: usize,
    /// Deepest page reached (forward is possible below it).
    pub max_navigation_depth: usize,
}

/// Text of a result window with its undo and redo stacks.
pub struct TextHistory {
    pub full_text: String,
    /// Previous texts, most recent last (for Undo).
    pub text_history: Vec<String>,
    /// Undone texts, most recent last (for Redo).
    pub redo_history: Vec<String>,
}

/// Text-to-speech state of a result window.
#[derive(Clone, Copy, Debug, PartialEq, Eq, Structural)]
pub struct TtsState {
    /// Active speech request (0 = not speaking).
    pub tts_request_id: u64,
    /// Speech is loading or connecting.
    pub tts_loading: bool,
}

/// Display refresh bookkeeping of a result window (times in milliseconds).
pub struct DisplayState {
    pub pending_text: Option<String>,
    pub is_streaming_active: bool,
    pub was_streaming_active: bool,
    pub font_cache_dirty: bool,
    pub last_text_update_time: u32,
    pub last_font_calc_time: u32,
    pub last_webview_update_time: u32,
}

/// Mouse interaction state of a result window.
pub struct DragState {
    pub interaction_mode: InteractionMode,
    pub current_resize_edge: ResizeEdge,
    pub drag_start_mouse: Point,
    pub drag_start_window_rect: Rect,
    /// Distinguishes a click from a drag.
    pub has_moved_significantly: bool,
}

/// The plain-value state of a result window.
pub struct WindowState {
    pub is_hovered: bool,
    pub buttons: ButtonHover,
    pub copy_success: bool,
    pub is_editing: bool,
    pub context_data: RefineContext,
    pub texts: TextHistory,
    pub is_refining: bool,
    pub display: DisplayState,
    pub model_id: String,
    pub provider: String,
    pub streaming_enabled: bool,
    pub preset_prompt: String,
    pub input_text: String,
    pub bg_color: u32,
    pub linked_window: Option<isize>,
    pub drag: DragState,
    pub cached_font_size: i32,
    pub last_w: i32,
    pub last_h: i32,
    pub last_resize_time: u32,
    pub graphics_mode: String,
    /// Identity of the cancellation token shared by a chain of windows.
    pub cancellation_token: Option<u64>,
    pub is_markdown_mode: bool,
    pub is_markdown_streaming: bool,
    pub nav: Navigation,
    pub tts: TtsState,
    pub opacity_percent: u8,
    /// The next navigation of the markdown view is one the window asked
    /// for itself (history back or forward) and must not count as a page.
    pub skip_next_navigation: bool,
}

/// What a click on the speaker button does.
#[derive(Clone, Copy, Debug, PartialEq, Eq, Structural)]
pub enum SpeakerAction {
    /// Speech is still loading: the click is ignored.
    Ignore,
    /// Speech is playing: stop it.
    Stop,
    /// Start speaking the window's text.
    Start,
    /// Nothing to speak.
    NoText,
}

/// The button a left click (without dragging) lands on.
#[derive(Clone, Copy, Debug, PartialEq, Eq, Structural)]
pub enum ClickAction {
    Back,
    Forward,
    Undo,
    Redo,
    Edit,
    Copy,
    Markdown,
    Download,
    Speaker,
    /// A click outside the buttons closes the window (and its linked one).
    Close,
}

/// How a navigation inside the markdown view changes the browsing state.
#[derive(Clone, Copy, Debug, PartialEq, Eq, Structural)]
pub enum NavigationOutcome {
    /// The navigation was one the window itself asked for (back/forward).
    Skipped,
    /// The user followed a link to an external page.
    EnteredPage,
    /// An internal page was reached while browsing: browsing was reset.
    ReturnedHome,
    Unchanged,
}

/// Classification of a URL the markdown view navigates to.
#[derive(Clone, Copy, Debug, PartialEq, Eq, Structural)]
pub enum UrlKind {
    External,
    Internal,
    Other,
}

pub open spec fn spec_url_is_internal(url: Seq<char>) -> bool {
    contains_seq(url, "wry.localhost"@) || contains_seq(url, "localhost"@) || contains_seq(url, "127.0.0.1"@)
        || starts_with(url, "data:"@) || starts_with(url, "about:"@)
}

pub open spec fn spec_url_kind(url: Seq<char>) -> UrlKind {
    if (starts_with(url, "http://"@) || starts_with(url, "https://"@)) && !spec_url_is_internal(url) {
        UrlKind::External
    } else if spec_url_is_internal(url) {
        UrlKind::Internal
    } else {
        UrlKind::Other
    }
}

/// Whether a URL is an external web page, the view's own content, or neither.
pub fn classify_url(url: &str) -> (k: UrlKind)
    ensures
        k == spec_url_kind(url@),
{
    let v = to_chars(url);
    let internal = contains_chars(&v, "wry.localhost") || contains_chars(&v, "localhost")
        || contains_chars(&v, "127.0.0.1") || starts_with_chars(&v, "data:") || starts_with_chars(
        &v,
        "about:",
    );
    let web = starts_with_chars(&v, "http://") || starts_with_chars(&v, "https://");
    if web && !internal {
        UrlKind::External
    } else if internal {
        UrlKind::Internal
    } else {
        UrlKind::Other
    }
}

/// Milliseconds from `last` to `now` on a wrapping 32-bit millisecond clock.
pub open spec fn elapsed_ms(now: u32, last: u32) -> int {
    if now >= last { now - last } else { now - last + 0x1_0000_0000 }
}

pub fn elapsed_since(now: u32, last: u32) -> (d: u32)
    ensures
        d == elapsed_ms(now, last),
{
    if now >= last { now - last } else { ((now as u64 + 0x1_0000_0000u64) - last as u64) as u32 }
}

/// The render modes that show a markdown view.
pub open spec fn is_markdown_render_mode(mode: Seq<char>) -> bool {
    mode == "markdown"@ || mode == "markdown_stream"@
}

/// Navigation depth never exceeds the deepest page reached.
pub open spec fn nav_ok(n: Navigation) -> bool {
    n.navigation_depth <= n.max_navigation_depth
}

/// A text with its undo and redo stacks, as values.
pub type HistoryView = (String, Seq<String>, Seq<String>);

impl View for TextHistory {
    type V = HistoryView;

    open spec fn view(&self) -> HistoryView {
        (self.full_text, self.text_history@, self.redo_history@)
    }
}

/// Undo: the last saved text comes back, the current one goes on the redo
/// stack. Nothing changes when there is nothing to undo.
pub open spec fn undo_step(v: HistoryView) -> HistoryView {
    if v.1.len() == 0 {
        v
    } else {
        (v.1.last(), v.1.drop_last(), v.2.push(v.0))
    }
}

/// Redo: the inverse of [`undo_step`].
pub open spec fn redo_step(v: HistoryView) -> HistoryView {
    if v.2.len() == 0 {
        v
    } else {
        (v.2.last(), v.1.push(v.0), v.2.drop_last())
    }
}

/// Undo that does not keep an empty current text for redo.
pub open spec fn undo_keep_step(v: HistoryView) -> HistoryView {
    if v.1.len() == 0 {
        v
    } else if v.0@.len() == 0 {
        (v.1.last(), v.1.drop_last(), v.2)
    } else {
        (v.1.last(), v.1.drop_last(), v.2.push(v.0))
    }
}

/// Redo that does not keep an empty current text for undo.
pub open spec fn redo_keep_step(v: HistoryView) -> HistoryView {
    if v.2.len() == 0 {
        v
    } else if v.0@.len() == 0 {
        (v.2.last(), v.1, v.2.drop_last())
    } else {
        (v.2.last(), v.1.push(v.0), v.2.drop_last())
    }
}

/// The text an undo brings back, if any.
pub open spec fn undo_text(v: HistoryView) -> Option<String> {
    if v.1.len() == 0 { None } else { Some(v.1.last()) }
}

/// The text a redo brings back, if any.
pub open spec fn redo_text(v: HistoryView) -> Option<String> {
    if v.2.len() == 0 { None } else { Some(v.2.last()) }
}

impl TextHistory {
    /// Undo from the button canvas: the last history entry becomes the text
    /// and the current text is pushed on the redo stack. Returns the restored
    /// text, or `None` when there is nothing to undo.
    pub fn undo(&mut self) -> (restored: Option<String>)
        ensures
            final(self)@ == undo_step(old(self)@),
            restored == undo_text(old(self)@),
    {
        match self.text_history.pop() {
            Some(last) => {
                let current = self.full_text.clone();
                self.redo_history.push(current);
                self.full_text = last.clone();
                Some(last)
            },
            None => None,
        }
    }

    /// Redo from the button canvas: the inverse of [`TextHistory::undo`].
    pub fn redo(&mut self) -> (restored: Option<String>)
        ensures
            final(self)@ == redo_step(old(self)@),
            restored == redo_text(old(self)@),
    {
        match self.redo_history.pop() {
            Some(next) => {
                let current = self.full_text.clone();
                self.text_history.push(current);
                self.full_text = next.clone();
                Some(next)
            },
            None => None,
        }
    }

    /// Undo from a click inside the window: like [`TextHistory::undo`], but an
    /// empty current text is not kept for redo.
    pub fn undo_keep_nonempty(&mut self) -> (restored: Option<String>)
        ensures
            final(self)@ == undo_keep_step(old(self)@),
            restored == undo_text(old(self)@),
    {
        match self.text_history.pop() {
            Some(last) => {
                let current = self.full_text.clone();
                self.full_text = last.clone();
                if current.as_str().unicode_len() != 0 {
                    self.redo_history.push(current);
                }
                Some(last)
            },
            None => None,
        }
    }

    /// Redo from a click inside the window: the inverse of
    /// [`TextHistory::undo_keep_nonempty`].
    pub fn redo_keep_nonempty(&mut self) -> (restored: Option<String>)
        ensures
            final(self)@ == redo_keep_step(old(self)@),
            restored == redo_text(old(self)@),
    {
        match self.redo_history.pop() {
            Some(next) => {
                let current = self.full_text.clone();
                self.full_text = next.clone();
                if current.as_str().unicode_len() != 0 {
                    self.text_history.push(current);
                }
                Some(next)
            },
            None => None,
        }
    }

    /// A new refinement starts: the current text is saved for Undo, Redo is
    /// cleared and the text is emptied for the streamed result. Returns the
    /// text that was saved.
    pub fn begin_refinement(&mut self) -> (saved: String)
        ensures
            saved == old(self).full_text,
            final(self).text_history@ == old(self).text_history@.push(old(self).full_text),
            final(self).redo_history@ == Seq::<String>::empty(),
            final(self).full_text@ == Seq::<char>::empty(),
    {
        let text_to_refine = self.full_text.clone();
        self.text_history.push(text_to_refine.clone());
        self.redo_history.clear();
        self.full_text = String::new();
        text_to_refine
    }
}

/// Redo undoes an undo.
pub proof fn lemma_redo_after_undo(v: HistoryView)
    requires
        v.1.len() > 0,
    ensures
        redo_step(undo_step(v)) == v,
{
    assert(v.1.drop_last().push(v.1.last()) =~= v.1);
    assert(v.2.push(v.0).drop_last() =~= v.2);
}

/// Undo undoes a redo.
pub proof fn lemma_undo_after_redo(v: HistoryView)
    requires
        v.2.len() > 0,
    ensures
        undo_step(redo_step(v)) == v,
{
    assert(v.2.drop_last().push(v.2.last()) =~= v.2);
    assert(v.1.push(v.0).drop_last() =~= v.1);
}

/// When neither the current text nor the text brought back is empty, the
/// in-window redo undoes the in-window undo, and the other way round.
pub proof fn lemma_keep_steps_inverse(v: HistoryView)
    requires
        v.0@.len() > 0,
    ensures
        v.1.len() > 0 && v.1.last()@.len() > 0 ==> redo_keep_step(undo_keep_step(v)) == v,
        v.2.len() > 0 && v.2.last()@.len() > 0 ==> undo_keep_step(redo_keep_step(v)) == v,
{
    if v.1.len() > 0 {
        assert(v.1.drop_last().push(v.1.last()) =~= v.1);
        assert(v.2.push(v.0).drop_last() =~= v.2);
    }
    if v.2.len() > 0 {
        assert(v.2.drop_last().push(v.2.last()) =~= v.2);
        assert(v.1.push(v.0).drop_last() =~= v.1);
    }
}

/// After a refinement of `v` has streamed its result `x`, an undo brings
/// back the text that was refined, with the earlier history unchanged, and
/// offers `x` for redo.
pub proof fn lemma_undo_after_refinement(v: HistoryView, x: String)
    ensures
        undo_step((x, v.1.push(v.0), Seq::<String>::empty())) == (v.0, v.1, seq![x]),
{
    assert(v.1.push(v.0).drop_last() =~= v.1);
    assert(Seq::<String>::empty().push(x) =~= seq![x]);
}

impl Navigation {
    /// The state at the result itself.
    pub fn home() -> (n: Navigation)
        ensures
            !n.is_browsing,
            n.navigation_depth == 0,
            n.max_navigation_depth == 0,
    {
        Navigation { is_browsing: false, navigation_depth: 0, max_navigation_depth: 0 }
    }

    /// A navigation of the markdown view to `url`. `skip` marks navigations
    /// the window triggered itself (history back/forward).
    pub fn on_navigation(&mut self, url: &str, skip: bool) -> (outcome: NavigationOutcome)
        requires
            old(self).navigation_depth < usize::MAX,
        ensures
            *final(self) == navigation_step(*old(self), url@, skip),
            skip ==> outcome == NavigationOutcome::Skipped && *final(self) == *old(self),
            !skip && spec_url_kind(url@) == UrlKind::External ==> {
                &&& outcome == NavigationOutcome::EnteredPage
                &&& final(self).is_browsing
                &&& final(self).navigation_depth == old(self).navigation_depth + 1
                &&& final(self).max_navigation_depth == final(self).navigation_depth
            },
            !skip && spec_url_kind(url@) == UrlKind::Internal && old(self).is_browsing ==> {
                &&& outcome == NavigationOutcome::ReturnedHome
                &&& !final(self).is_browsing
                &&& final(self).navigation_depth == 0
                &&& final(self).max_navigation_depth == 0
            },
            !skip && (spec_url_kind(url@) == UrlKind::Other || (spec_url_kind(url@)
                == UrlKind::Internal && !old(self).is_browsing)) ==> outcome
                == NavigationOutcome::Unchanged && *final(self) == *old(self),
    {
        if skip {
            return NavigationOutcome::Skipped;
        }
        match classify_url(url) {
            UrlKind::External => {
                self.is_browsing = true;
                self.navigation_depth = self.navigation_depth + 1;
                self.max_navigation_depth = self.navigation_depth;
                NavigationOutcome::EnteredPage
            },
            UrlKind::Internal => {
                if self.is_browsing {
                    self.is_browsing = false;
                    self.navigation_depth = 0;
                    self.max_navigation_depth = 0;
                    NavigationOutcome::ReturnedHome
                } else {
                    NavigationOutcome::Unchanged
                }
            },
            UrlKind::Other => NavigationOutcome::Unchanged,
        }
    }

    /// Navigate back. Returns `true` when this returns to the window's own
    /// result (the view is then rebuilt from the window text).
    pub fn go_back(&mut self) -> (at_result: bool)
        ensures
            *final(self) == back_step(*old(self)),
            final(self).navigation_depth == if old(self).navigation_depth > 0 {
                old(self).navigation_depth - 1
            } else {
                0
            },
            at_result == (final(self).navigation_depth == 0),
            at_result ==> !final(self).is_browsing && final(self).max_navigation_depth == 0,
            !at_result ==> final(self).max_navigation_depth == old(self).max_navigation_depth
                && final(self).is_browsing == old(self).is_browsing,
    {
        if self.navigation_depth > 0 {
            self.navigation_depth = self.navigation_depth - 1;
        }
        if self.navigation_depth == 0 {
            self.is_browsing = false;
            self.max_navigation_depth = 0;
            true
        } else {
            false
        }
    }

    /// Navigate forward, possible only below the deepest page reached.
    pub fn go_forward(&mut self) -> (moved: bool)
        ensures
            *final(self) == forward_step(*old(self)),
            moved == (old(self).navigation_depth < old(self).max_navigation_depth),
            moved ==> final(self).navigation_depth == old(self).navigation_depth + 1
                && final(self).is_browsing,
            !moved ==> *final(self) == *old(self),
            final(self).max_navigation_depth == old(self).max_navigation_depth,
    {
        if self.navigation_depth < self.max_navigation_depth {
            self.navigation_depth = self.navigation_depth + 1;
            self.is_browsing = true;
            true
        } else {
            false
        }
    }

    /// Whether a forward button is offered.
    pub fn can_go_forward(&self) -> (r: bool)
        ensures
            r == (self.navigation_depth < self.max_navigation_depth),
    {
        self.navigation_depth < self.max_navigation_depth
    }
}

impl TtsState {
    /// A click on the speaker button for a window whose text is `text`.
    /// `is_speaking` tells whether the speech with the current request id
    /// is still playing.
    pub fn speaker_click(&mut self, text: &str, is_speaking: bool) -> (action: SpeakerAction)
        ensures
            action == spec_speaker_action(*old(self), text@, is_speaking),
            action == SpeakerAction::Stop ==> final(self).tts_request_id == 0 && !final(self).tts_loading,
            action == SpeakerAction::Start ==> final(self).tts_loading && final(self).tts_request_id
                == old(self).tts_request_id,
            (action == SpeakerAction::Ignore || action == SpeakerAction::NoText) ==> *final(self) == *old(self),
    {
        if self.tts_loading {
            SpeakerAction::Ignore
        } else if self.tts_request_id != 0 && is_speaking {
            self.tts_request_id = 0;
            self.tts_loading = false;
            SpeakerAction::Stop
        } else if text.unicode_len() != 0 {
            self.tts_loading = true;
            SpeakerAction::Start
        } else {
            SpeakerAction::NoText
        }
    }

    /// Whether speech is playing (a request is active and no longer loading).
    pub fn is_speaking(&self) -> (r: bool)
        ensures
            r == (self.tts_request_id != 0 && !self.tts_loading),
    {
        self.tts_request_id != 0 && !self.tts_loading
    }
}

impl DisplayState {
    /// Take the pending text for display if it is due at time `now`: always
    /// when not streaming or when streaming just ended, on the first update,
    /// or when more than 16 ms passed since the last one.
    pub fn take_pending_text(&mut self, now: u32) -> (update: Option<String>)
        ensures
            ({
                let ended = old(self).was_streaming_active && !old(self).is_streaming_active;
                let due = old(self).pending_text is Some && (ended || !old(self).is_streaming_active
                    || old(self).last_text_update_time == 0 || elapsed_ms(now, old(self).last_text_update_time) > 16);
                &&& final(self).was_streaming_active == (old(self).was_streaming_active && !ended)
                &&& final(self).is_streaming_active == old(self).is_streaming_active
                &&& due ==> update == old(self).pending_text && final(self).pending_text is None
                    && final(self).last_text_update_time == now
                    && final(self).font_cache_dirty == (old(self).font_cache_dirty || !old(self).is_streaming_active)
                &&& !due ==> update is None && final(self).pending_text == old(self).pending_text
                    && final(self).last_text_update_time == old(self).last_text_update_time
                    && final(self).font_cache_dirty == old(self).font_cache_dirty
            }),
            *final(self) == (DisplayState {
                pending_text: final(self).pending_text,
                was_streaming_active: final(self).was_streaming_active,
                last_text_update_time: final(self).last_text_update_time,
                font_cache_dirty: final(self).font_cache_dirty,
                ..*old(self)
            }),
    {
        let streaming_just_ended = self.was_streaming_active && !self.is_streaming_active;
        if streaming_just_ended {
            self.was_streaming_active = false;
        }
        let not_streaming = !self.is_streaming_active;
        if self.pending_text.is_some() && (streaming_just_ended || not_streaming
            || self.last_text_update_time == 0 || elapsed_since(now, self.last_text_update_time) > 16) {
            let update = self.pending_text.take();
            self.last_text_update_time = now;
            if not_streaming {
                self.font_cache_dirty = true;
            }
            update
        } else {
            None
        }
    }

    /// A text is displayed at time `now`: the font size is recomputed at
    /// most every 200 ms.
    pub fn note_font_recalc(&mut self, now: u32)
        ensures
            (old(self).last_font_calc_time == 0 || elapsed_ms(now, old(self).last_font_calc_time) >= 200)
                ==> final(self).font_cache_dirty && final(self).last_font_calc_time == now,
            !(old(self).last_font_calc_time == 0 || elapsed_ms(now, old(self).last_font_calc_time) >= 200)
                ==> final(self).font_cache_dirty == old(self).font_cache_dirty
                && final(self).last_font_calc_time == old(self).last_font_calc_time,
            final(self).pending_text == old(self).pending_text,
            *final(self) == (DisplayState {
                font_cache_dirty: final(self).font_cache_dirty,
                last_font_calc_time: final(self).last_font_calc_time,
                ..*old(self)
            }),
    {
        let since = elapsed_since(now, self.last_font_calc_time);
        if since >= 200 || self.last_font_calc_time == 0 {
            self.font_cache_dirty = true;
            self.last_font_calc_time = now;
        }
    }

    /// Whether the streaming markdown view may be refreshed at `now` (at most
    /// every 80 ms); records the refresh time when it may.
    pub fn webview_refresh_due(&mut self, now: u32) -> (due: bool)
        ensures
            due == (old(self).last_webview_update_time == 0 || elapsed_ms(now, old(self).last_webview_update_time) >= 80),
            due ==> final(self).last_webview_update_time == now,
            !due ==> final(self).last_webview_update_time == old(self).last_webview_update_time,
            final(self).pending_text == old(self).pending_text,
            *final(self) == (DisplayState { last_webview_update_time: final(self).last_webview_update_time, ..*old(self) }),
    {
        let since = elapsed_since(now, self.last_webview_update_time);
        if since >= 80 || self.last_webview_update_time == 0 {
            self.last_webview_update_time = now;
            true
        } else {
            false
        }
    }
}

impl DragState {
    /// The idle state.
    pub fn idle() -> (d: DragState)
        ensures
            d.interaction_mode is Idle,
            d.current_resize_edge == ResizeEdge::NoEdge,
            !d.has_moved_significantly,
            d.drag_start_mouse == (Point { x: 0, y: 0 }),
            d.drag_start_window_rect == (Rect { left: 0, top: 0, right: 0, bottom: 0 }),
    {
        DragState {
            interaction_mode: InteractionMode::Idle,
            current_resize_edge: ResizeEdge::NoEdge,
            drag_start_mouse: Point { x: 0, y: 0 },
            drag_start_window_rect: Rect { left: 0, top: 0, right: 0, bottom: 0 },
            has_moved_significantly: false,
        }
    }

    /// The left button went down on `edge` (or inside the window): an edge
    /// starts a resize, elsewhere the window is dragged.
    pub fn begin_left_drag(&mut self, edge: ResizeEdge, screen_pt: Point, window_rect: Rect)
        ensures
            final(self).drag_start_mouse == screen_pt,
            final(self).drag_start_window_rect == window_rect,
            !final(self).has_moved_significantly,
            edge != ResizeEdge::NoEdge ==> final(self).interaction_mode == InteractionMode::Resizing(edge),
            edge == ResizeEdge::NoEdge ==> final(self).interaction_mode is DraggingWindow,
            final(self).current_resize_edge == old(self).current_resize_edge,
    {
        self.drag_start_mouse = screen_pt;
        self.drag_start_window_rect = window_rect;
        self.has_moved_significantly = false;
        if edge != ResizeEdge::NoEdge {
            self.interaction_mode = InteractionMode::Resizing(edge);
        } else {
            self.interaction_mode = InteractionMode::DraggingWindow;
        }
    }

    /// The right button went down: the window's group starts moving along.
    pub fn begin_group_drag(&mut self, screen_pt: Point, group: Vec<(isize, Rect)>)
        ensures
            final(self).drag_start_mouse == screen_pt,
            !final(self).has_moved_significantly,
            final(self).interaction_mode == InteractionMode::DraggingGroup(group),
            final(self).current_resize_edge == old(self).current_resize_edge,
            final(self).drag_start_window_rect == old(self).drag_start_window_rect,
    {
        self.drag_start_mouse = screen_pt;
        self.has_moved_significantly = false;
        self.interaction_mode = InteractionMode::DraggingGroup(group);
    }

    /// The cursor is at `cur` while dragging: a move of more than 3 pixels
    /// on either axis makes it a drag rather than a click. Returns the
    /// offset from the drag start.
    pub fn drag_offset(&mut self, cur: Point) -> (d: (i32, i32))
        requires
            coord_ok(cur.x as int),
            coord_ok(cur.y as int),
            coord_ok(old(self).drag_start_mouse.x as int),
            coord_ok(old(self).drag_start_mouse.y as int),
        ensures
            d.0 == cur.x - old(self).drag_start_mouse.x,
            d.1 == cur.y - old(self).drag_start_mouse.y,
            final(self).has_moved_significantly == (old(self).has_moved_significantly
                || abs_int(d.0 as int) > 3 || abs_int(d.1 as int) > 3),
            final(self).drag_start_mouse == old(self).drag_start_mouse,
            *final(self) == (DragState { has_moved_significantly: final(self).has_moved_significantly, ..*old(self) }),
    {
        let dx = cur.x - self.drag_start_mouse.x;
        let dy = cur.y - self.drag_start_mouse.y;
        if (if dx < 0 { -dx } else { dx }) > 3 || (if dy < 0 { -dy } else { dy }) > 3 {
            self.has_moved_significantly = true;
        }
        (dx, dy)
    }

    /// The left button was released: the interaction ends. Returns whether a
    /// resize ended and whether the release counts as a click.
    pub fn finish_left(&mut self) -> (r: (bool, bool))
        ensures
            final(self).interaction_mode is Idle,
            r.0 == (old(self).interaction_mode is Resizing),
            r.1 == !old(self).has_moved_significantly,
            *final(self) == (DragState { interaction_mode: final(self).interaction_mode, ..*old(self) }),
    {
        let was_resizing = match self.interaction_mode {
            InteractionMode::Resizing(_) => true,
            _ => false,
        };
        self.interaction_mode = InteractionMode::Idle;
        (was_resizing, !self.has_moved_significantly)
    }

    /// The right button was released: the window text is copied unless a
    /// group drag actually moved.
    pub fn finish_right(&mut self) -> (copy: bool)
        ensures
            final(self).interaction_mode is Idle,
            copy == !(old(self).interaction_mode is DraggingGroup && old(self).has_moved_significantly),
            *final(self) == (DragState { interaction_mode: final(self).interaction_mode, ..*old(self) }),
    {
        let copy = match self.interaction_mode {
            InteractionMode::DraggingGroup(_) => !self.has_moved_significantly,
            _ => true,
        };
        self.interaction_mode = InteractionMode::Idle;
        copy
    }
}

/// What a mouse move with a button held does to the windows.
pub enum DragMove {
    Nothing,
    /// Move the window so that its top-left corner is here.
    MoveWindow(i32, i32),
    /// Move each window of the group so that its top-left corner is here.
    MoveGroup(Vec<(isize, i32, i32)>),
    /// Give the window this rectangle.
    Resize(Rect),
}

/// Every rectangle of a drag snapshot is within the coordinate limits.
pub open spec fn snapshot_ok(snap: Seq<(isize, Rect)>) -> bool {
    forall|i: int| 0 <= i < snap.len() ==> rect_ok(#[trigger] snap[i].1)
}

/// A move of more than 3 pixels on either axis makes a drag of a click.
pub open spec fn moved_significantly(dx: int, dy: int) -> bool {
    abs_int(dx) > 3 || abs_int(dy) > 3
}

impl DragState {
    /// The cursor moved to `cur` (screen pixels) while a button is held:
    /// a dragged window or group follows the cursor from where the drag
    /// started, a resized window gets its new rectangle.
    pub fn drag_move(&mut self, cur: Point) -> (m: DragMove)
        requires
            coord_ok(cur.x as int),
            coord_ok(cur.y as int),
            coord_ok(old(self).drag_start_mouse.x as int),
            coord_ok(old(self).drag_start_mouse.y as int),
            rect_ok(old(self).drag_start_window_rect),
            old(self).interaction_mode matches InteractionMode::DraggingGroup(snap) ==> snapshot_ok(snap@),
        ensures
            ({
                let dx = cur.x - old(self).drag_start_mouse.x;
                let dy = cur.y - old(self).drag_start_mouse.y;
                let start = old(self).drag_start_window_rect;
                &&& final(self).interaction_mode == old(self).interaction_mode
                &&& final(self).current_resize_edge == old(self).current_resize_edge
                &&& final(self).drag_start_mouse == old(self).drag_start_mouse
                &&& final(self).drag_start_window_rect == start
                &&& match old(self).interaction_mode {
                    InteractionMode::DraggingWindow => {
                        &&& m == DragMove::MoveWindow((start.left + dx) as i32, (start.top + dy) as i32)
                        &&& final(self).has_moved_significantly == (old(self).has_moved_significantly
                            || moved_significantly(dx, dy))
                    },
                    InteractionMode::DraggingGroup(snap) => {
                        &&& m matches DragMove::MoveGroup(v) && v@.len() == snap@.len() && forall|i: int|
                            0 <= i < v@.len() ==> #[trigger] v@[i] == (snap@[i].0, (snap@[i].1.left + dx) as i32,
                            (snap@[i].1.top + dy) as i32)
                        &&& final(self).has_moved_significantly == (old(self).has_moved_significantly
                            || moved_significantly(dx, dy))
                    },
                    InteractionMode::Resizing(edge) => {
                        &&& m == DragMove::Resize(spec_resized_rect(start, edge, dx, dy))
                        &&& final(self).has_moved_significantly
                    },
                    _ => m == DragMove::Nothing && final(self).has_moved_significantly
                        == old(self).has_moved_significantly,
                }
            }),
    {
        let start = self.drag_start_window_rect;
        match &self.interaction_mode {
            InteractionMode::DraggingWindow => {
                let (dx, dy) = self.drag_offset(cur);
                DragMove::MoveWindow(start.left + dx, start.top + dy)
            },
            InteractionMode::DraggingGroup(snap) => {
                let dx = cur.x - self.drag_start_mouse.x;
                let dy = cur.y - self.drag_start_mouse.y;
                let mut moves: Vec<(isize, i32, i32)> = Vec::new();
                let mut i: usize = 0;
                while i < snap.len()
                    invariant
                        i <= snap@.len(),
                        snapshot_ok(snap@),
                        crate::layout::delta_ok(dx as int),
                        crate::layout::delta_ok(dy as int),
                        moves@.len() == i,
                        forall|j: int| 0 <= j < i ==> #[trigger] moves@[j] == (snap@[j].0, (snap@[j].1.left
                            + dx) as i32, (snap@[j].1.top + dy) as i32),
                    decreases snap@.len() - i,
                {
                    let (h, r) = snap[i];
                    assert(rect_ok(snap@[i as int].1));
                    moves.push((h, r.left + dx, r.top + dy));
                    i = i + 1;
                }
                if (if dx < 0 { -dx } else { dx }) > 3 || (if dy < 0 { -dy } else { dy }) > 3 {
                    self.has_moved_significantly = true;
                }
                DragMove::MoveGroup(moves)
            },
            InteractionMode::Resizing(edge) => {
                let edge = *edge;
                self.has_moved_significantly = true;
                let dx = cur.x - self.drag_start_mouse.x;
                let dy = cur.y - self.drag_start_mouse.y;
                DragMove::Resize(resized_window_rect(start, edge, dx, dy))
            },
            _ => DragMove::Nothing,
        }
    }
}

/// The cursor shown over a result window.
#[derive(Clone, Copy, Debug, PartialEq, Eq, Structural)]
pub enum CursorKind {
    /// Text cursor over the refine bar.
    IBeam,
    SizeNS,
    SizeWE,
    SizeNWSE,
    SizeNESW,
    /// Hand over a button.
    Hand,
    /// No cursor of the window's own.
    Blank,
}

/// The cursor at `(x, y)` in a `w` x `h` window: the text cursor over the
/// refine bar while editing, a sizing cursor on the edges, a hand over a
/// button that reacts.
pub open spec fn spec_cursor_kind(
    w: int,
    h: int,
    x: int,
    y: int,
    editing: bool,
    streaming: bool,
    has_history: bool,
    browsing: bool,
) -> CursorKind {
    if editing && x >= 10 && x <= w - 10 && y >= 10 && y <= 50 {
        CursorKind::IBeam
    } else {
        match spec_resize_edge(w, h, x, y) {
            ResizeEdge::Top | ResizeEdge::Bottom => CursorKind::SizeNS,
            ResizeEdge::Left | ResizeEdge::Right => CursorKind::SizeWE,
            ResizeEdge::TopLeft | ResizeEdge::BottomRight => CursorKind::SizeNWSE,
            ResizeEdge::TopRight | ResizeEdge::BottomLeft => CursorKind::SizeNESW,
            ResizeEdge::NoEdge => if !streaming && w >= 200 && (spec_point_in_padded(x, y, button_rect(w, h, 0), 0)
                || spec_point_in_padded(x, y, button_rect(w, h, 2), 0) || (has_history
                && spec_point_in_padded(x, y, button_rect(w, h, 5), 0)) || spec_point_in_padded(x, y, button_rect(w, h, 3), 0)
                || (browsing && spec_point_in_padded(x, y, back_button_rect(h), 0))
                || spec_point_in_padded(x, y, button_rect(w, h, 4), 0) || spec_point_in_padded(x, y, button_rect(w, h, 1), 0)) {
                CursorKind::Hand
            } else {
                CursorKind::Blank
            },
        }
    }
}

/// The cursor at `(x, y)` in a `w` x `h` window (see [`spec_cursor_kind`]).
pub fn cursor_kind_at(
    w: i32,
    h: i32,
    x: i32,
    y: i32,
    editing: bool,
    streaming: bool,
    has_history: bool,
    browsing: bool,
) -> (c: CursorKind)
    requires
        coord_ok(w as int),
        coord_ok(h as int),
        coord_ok(x as int),
        coord_ok(y as int),
    ensures
        c == spec_cursor_kind(w as int, h as int, x as int, y as int, editing, streaming, has_history, browsing),
{
    if editing && x >= 10 && x <= w - 10 && y >= 10 && y <= 10 + 40 {
        return CursorKind::IBeam;
    }
    match get_resize_edge(w, h, x, y) {
        ResizeEdge::Top | ResizeEdge::Bottom => CursorKind::SizeNS,
        ResizeEdge::Left | ResizeEdge::Right => CursorKind::SizeWE,
        ResizeEdge::TopLeft | ResizeEdge::BottomRight => CursorKind::SizeNWSE,
        ResizeEdge::TopRight | ResizeEdge::BottomLeft => CursorKind::SizeNESW,
        ResizeEdge::NoEdge => {
            if !streaming && should_show_buttons(w, h) {
                let on_copy = point_in_padded_rect(x, y, &get_copy_btn_rect(w, h), 0);
                let on_edit = point_in_padded_rect(x, y, &get_edit_btn_rect(w, h), 0);
                let on_undo = has_history && point_in_padded_rect(x, y, &get_undo_btn_rect(w, h), 0);
                let on_md = point_in_padded_rect(x, y, &get_markdown_btn_rect(w, h), 0);
                let on_back = browsing && point_in_padded_rect(x, y, &back_button(h), 0);
                let on_dl = point_in_padded_rect(x, y, &get_download_btn_rect(w, h), 0);
                let on_speaker = point_in_padded_rect(x, y, &get_speaker_btn_rect(w, h), 0);
                if on_copy || on_edit || on_undo || on_md || on_back || on_dl || on_speaker {
                    CursorKind::Hand
                } else {
                    CursorKind::Blank
                }
            } else {
                CursorKind::Blank
            }
        },
    }
}

impl ButtonHover {
    /// No button hovered.
    pub fn none() -> (b: ButtonHover)
        ensures
            spec_no_hover(b),
    {
        ButtonHover {
            on_copy_btn: false,
            on_edit_btn: false,
            on_undo_btn: false,
            on_redo_btn: false,
            on_markdown_btn: false,
            on_back_btn: false,
            on_forward_btn: false,
            on_download_btn: false,
            on_speaker_btn: false,
        }
    }

    /// The button a click lands on, by priority.
    pub fn click_action(&self) -> (a: ClickAction)
        ensures
            a == spec_click_action(*self),
    {
        if self.on_back_btn {
            ClickAction::Back
        } else if self.on_forward_btn {
            ClickAction::Forward
        } else if self.on_undo_btn {
            ClickAction::Undo
        } else if self.on_redo_btn {
            ClickAction::Redo
        } else if self.on_edit_btn {
            ClickAction::Edit
        } else if self.on_copy_btn {
            ClickAction::Copy
        } else if self.on_markdown_btn {
            ClickAction::Markdown
        } else if self.on_download_btn {
            ClickAction::Download
        } else if self.on_speaker_btn {
            ClickAction::Speaker
        } else {
            ClickAction::Close
        }
    }
}

/// Hover flags from the cursor position `(x, y)` in a `w` x `h` window.
/// Buttons react within 4 pixels of their rectangle; nothing is hovered
/// while streaming or when the window is too narrow for buttons; while
/// browsing only undo, redo, back and forward react. `speaker_before` is
/// the speaker flag before the move, which a browsing window keeps.
pub fn button_hover_at(
    x: i32,
    y: i32,
    w: i32,
    h: i32,
    streaming: bool,
    has_undo: bool,
    has_redo: bool,
    nav: Navigation,
    speaker_before: bool,
) -> (b: ButtonHover)
    requires
        coord_ok(w as int),
        coord_ok(h as int),
    ensures
        b == spec_button_hover(x as int, y as int, w as int, h as int, streaming, has_undo, has_redo, nav, speaker_before),
{
    let pad: i32 = 4;
    if !streaming && should_show_buttons(w, h) {
        let copy_rect = get_copy_btn_rect(w, h);
        let edit_rect = get_edit_btn_rect(w, h);
        let undo_rect = get_undo_btn_rect(w, h);
        let redo_rect = get_redo_btn_rect(w, h);
        let on_undo = has_undo && !nav.is_browsing && point_in_padded_rect(x, y, &undo_rect, pad);
        let on_redo = has_redo && !nav.is_browsing && point_in_padded_rect(x, y, &redo_rect, pad);
        if nav.is_browsing {
            let back = back_button(h);
            let on_back = point_in_padded_rect(x, y, &back, pad);
            let on_forward = if nav.navigation_depth < nav.max_navigation_depth {
                let fwd = forward_button(w, h);
                point_in_padded_rect(x, y, &fwd, pad)
            } else {
                false
            };
            ButtonHover {
                on_copy_btn: false,
                on_edit_btn: false,
                on_undo_btn: on_undo,
                on_redo_btn: on_redo,
                on_markdown_btn: false,
                on_back_btn: on_back,
                on_forward_btn: on_forward,
                on_download_btn: false,
                on_speaker_btn: speaker_before,
            }
        } else {
            let md_rect = get_markdown_btn_rect(w, h);
            let dl_rect = get_download_btn_rect(w, h);
            let speaker_rect = get_speaker_btn_rect(w, h);
            ButtonHover {
                on_copy_btn: point_in_padded_rect(x, y, &copy_rect, pad),
                on_edit_btn: point_in_padded_rect(x, y, &edit_rect, pad),
                on_undo_btn: on_undo,
                on_redo_btn: on_redo,
                on_markdown_btn: point_in_padded_rect(x, y, &md_rect, pad),
                on_back_btn: false,
                on_forward_btn: false,
                on_download_btn: point_in_padded_rect(x, y, &dl_rect, pad),
                on_speaker_btn: point_in_padded_rect(x, y, &speaker_rect, pad),
            }
        }
    } else {
        ButtonHover::none()
    }
}

pub open spec fn spec_no_hover(b: ButtonHover) -> bool {
    !b.on_copy_btn && !b.on_edit_btn && !b.on_undo_btn && !b.on_redo_btn && !b.on_markdown_btn
        && !b.on_back_btn && !b.on_forward_btn && !b.on_download_btn && !b.on_speaker_btn
}

pub open spec fn spec_button_hover(
    x: int,
    y: int,
    w: int,
    h: int,
    streaming: bool,
    has_undo: bool,
    has_redo: bool,
    nav: Navigation,
    speaker_before: bool,
) -> ButtonHover {
    if !streaming && w >= 200 {
        let on_undo = has_undo && !nav.is_browsing && spec_point_in_padded(x, y, button_rect(w, h, 5), 4);
        let on_redo = has_redo && !nav.is_browsing && spec_point_in_padded(x, y, button_rect(w, h, 6), 4);
        if nav.is_browsing {
            ButtonHover {
                on_copy_btn: false,
                on_edit_btn: false,
                on_undo_btn: on_undo,
                on_redo_btn: on_redo,
                on_markdown_btn: false,
                on_back_btn: spec_point_in_padded(x, y, back_button_rect(h), 4),
                on_forward_btn: nav.navigation_depth < nav.max_navigation_depth
                    && spec_point_in_padded(x, y, forward_button_rect(w, h), 4),
                on_download_btn: false,
                on_speaker_btn: speaker_before,
            }
        } else {
            ButtonHover {
                on_copy_btn: spec_point_in_padded(x, y, button_rect(w, h, 0), 4),
                on_edit_btn: spec_point_in_padded(x, y, button_rect(w, h, 2), 4),
                on_undo_btn: on_undo,
                on_redo_btn: on_redo,
                on_markdown_btn: spec_point_in_padded(x, y, button_rect(w, h, 3), 4),
                on_back_btn: false,
                on_forward_btn: false,
                on_download_btn: spec_point_in_padded(x, y, button_rect(w, h, 4), 4),
                on_speaker_btn: spec_point_in_padded(x, y, button_rect(w, h, 1), 4),
            }
        }
    } else {
        ButtonHover {
            on_copy_btn: false,
            on_edit_btn: false,
            on_undo_btn: false,
            on_redo_btn: false,
            on_markdown_btn: false,
            on_back_btn: false,
            on_forward_btn: false,
            on_download_btn: false,
            on_speaker_btn: false,
        }
    }
}

impl WindowState {
    /// The state of a freshly created result window.
    pub fn new(
        context: RefineContext,
        model_id: String,
        provider: String,
        streaming_enabled: bool,
        start_editing: bool,
        preset_prompt: String,
        custom_bg_color: u32,
        render_mode: &str,
        initial_text: String,
        graphics_mode: String,
    ) -> (s: WindowState)
        ensures
            s.texts.full_text == initial_text,
            s.display.pending_text == Some(initial_text),
            s.texts.text_history@.len() == 0,
            s.texts.redo_history@.len() == 0,
            s.is_editing == start_editing,
            s.display.is_streaming_active == streaming_enabled,
            s.display.was_streaming_active == streaming_enabled,
            s.display.font_cache_dirty,
            s.streaming_enabled == streaming_enabled,
            s.is_markdown_mode == is_markdown_render_mode(render_mode@),
            s.is_markdown_streaming == (render_mode@ == "markdown_stream"@),
            s.model_id == model_id,
            s.provider == provider,
            s.preset_prompt == preset_prompt,
            s.input_text@ == Seq::<char>::empty(),
            s.bg_color == custom_bg_color,
            s.graphics_mode == graphics_mode,
            s.linked_window is None,
            s.cancellation_token is None,
            s.drag.interaction_mode is Idle,
            s.drag.current_resize_edge == ResizeEdge::NoEdge,
            s.cached_font_size == 72,
            !s.is_refining,
            !s.nav.is_browsing,
            s.nav.navigation_depth == 0,
            s.nav.max_navigation_depth == 0,
            s.tts.tts_request_id == 0,
            !s.tts.tts_loading,
            !s.copy_success,
            spec_no_hover(s.buttons),
            !s.skip_next_navigation,
    {
        let is_markdown_stream = str_eq(render_mode, "markdown_stream");
        let is_any_markdown_mode = str_eq(render_mode, "markdown") || is_markdown_stream;
        let pending = initial_text.clone();
        WindowState {
            is_hovered: false,
            buttons: ButtonHover::none(),
            copy_success: false,
            is_editing: start_editing,
            context_data: context,
            texts: TextHistory { full_text: initial_text, text_history: Vec::new(), redo_history: Vec::new() },
            is_refining: false,
            display: DisplayState {
                pending_text: Some(pending),
                is_streaming_active: streaming_enabled,
                was_streaming_active: streaming_enabled,
                font_cache_dirty: true,
                last_text_update_time: 0,
                last_font_calc_time: 0,
                last_webview_update_time: 0,
            },
            model_id,
            provider,
            streaming_enabled,
            preset_prompt,
            input_text: String::new(),
            bg_color: custom_bg_color,
            linked_window: None,
            drag: DragState::idle(),
            cached_font_size: 72,
            last_w: 0,
            last_h: 0,
            last_resize_time: 0,
            graphics_mode,
            cancellation_token: None,
            is_markdown_mode: is_any_markdown_mode,
            is_markdown_streaming: is_markdown_stream,
            nav: Navigation::home(),
            tts: TtsState { tts_request_id: 0, tts_loading: false },
            opacity_percent: 100,
            skip_next_navigation: false,
        }
    }

    /// Replace the window text (the text also becomes pending for display).
    pub fn update_text(&mut self, text: &str)
        ensures
            final(self).texts.full_text@ == text@,
            final(self).display.pending_text matches Some(p) && p@ == text@,
            final(self).texts.text_history@ == old(self).texts.text_history@,
            final(self).texts.redo_history@ == old(self).texts.redo_history@,
            *final(self) == (WindowState {
                texts: final(self).texts,
                display: DisplayState { pending_text: final(self).display.pending_text, ..old(self).display },
                ..*old(self)
            }),
    {
        self.display.pending_text = Some(owned(text));
        self.texts.full_text = owned(text);
    }

    /// Toggle the refine (edit) bar; opening it clears the typed input.
    pub fn toggle_edit(&mut self)
        ensures
            final(self).is_editing == !old(self).is_editing,
            final(self).is_editing ==> final(self).input_text@ == Seq::<char>::empty(),
            !final(self).is_editing ==> final(self).input_text == old(self).input_text,
            *final(self) == (WindowState {
                is_editing: final(self).is_editing,
                input_text: final(self).input_text,
                ..*old(self)
            }),
    {
        self.is_editing = !self.is_editing;
        if self.is_editing {
            self.input_text = String::new();
        }
    }

    /// The (text to refine, prompt) pair of a refinement: when there is no
    /// text to refine but a preset prompt exists, the typed input becomes the
    /// text and the preset prompt the instruction.
    pub fn refine_request(&self, user_prompt: &str) -> (r: (String, String))
        ensures
            (r.0@, r.1@) == spec_refine_request_views(self.texts.full_text@, self.preset_prompt@, user_prompt@),
    {
        if is_blank_str(self.texts.full_text.as_str()) && self.preset_prompt.as_str().unicode_len() != 0 {
            (owned(user_prompt), self.preset_prompt.clone())
        } else {
            (self.texts.full_text.clone(), owned(user_prompt))
        }
    }

    /// Submit a refine prompt. A blank prompt does nothing and yields `None`.
    /// Otherwise the pair (text to refine, prompt) of the refinement request
    /// is built from the current text, which is then saved for Undo; Redo is
    /// cleared, the text is cleared for streaming, the bar closes and
    /// refining starts.
    pub fn submit_refine(&mut self, prompt: &str) -> (request: Option<(String, String)>)
        ensures
            is_blank(prompt@) ==> request is None && final(self).texts.text_history@
                == old(self).texts.text_history@ && final(self).texts.full_text == old(self).texts.full_text,
            !is_blank(prompt@) ==> {
                &&& final(self).texts.text_history@ == old(self).texts.text_history@.push(old(self).texts.full_text)
                &&& final(self).texts.redo_history@.len() == 0
                &&& final(self).input_text == old(self).texts.full_text
                &&& final(self).texts.full_text@ == Seq::<char>::empty()
                &&& final(self).display.pending_text matches Some(p) && p@ == Seq::<char>::empty()
                &&& !final(self).is_editing
                &&& final(self).is_refining
                &&& final(self).display.is_streaming_active
                &&& final(self).display.was_streaming_active
                &&& request matches Some(r) && (r.0@, r.1@) == spec_refine_request_views(
                    old(self).texts.full_text@,
                    old(self).preset_prompt@,
                    prompt@,
                )
                &&& final(self).display == (DisplayState {
                    pending_text: final(self).display.pending_text,
                    is_streaming_active: true,
                    was_streaming_active: true,
                    ..old(self).display
                })
                &&& *final(self) == (WindowState {
                    texts: final(self).texts,
                    input_text: final(self).input_text,
                    display: final(self).display,
                    is_editing: false,
                    is_refining: true,
                    ..*old(self)
                })
            },
            is_blank(prompt@) ==> *final(self) == *old(self),
    {
        if is_blank_str(prompt) {
            return None;
        }
        let request = self.refine_request(prompt);
        let saved = self.texts.begin_refinement();
        self.input_text = saved;
        self.display.pending_text = Some(String::new());
        self.is_editing = false;
        self.is_refining = true;
        self.display.is_streaming_active = true;
        self.display.was_streaming_active = true;
        Some(request)
    }

    /// A streamed chunk of the refinement arrived: the accumulated text
    /// becomes the window text; the first chunk ends the refining animation.
    pub fn on_refine_chunk(&mut self, accumulated: &str, first_chunk: bool)
        ensures
            final(self).texts.full_text@ == accumulated@,
            final(self).display.pending_text matches Some(p) && p@ == accumulated@,
            first_chunk ==> !final(self).is_refining,
            !first_chunk ==> final(self).is_refining == old(self).is_refining,
            final(self).texts.text_history@ == old(self).texts.text_history@,
            final(self).texts.redo_history@ == old(self).texts.redo_history@,
            *final(self) == (WindowState {
                texts: final(self).texts,
                display: DisplayState { pending_text: final(self).display.pending_text, ..old(self).display },
                is_refining: final(self).is_refining,
                ..*old(self)
            }),
    {
        if first_chunk {
            self.is_refining = false;
        }
        self.display.pending_text = Some(owned(accumulated));
        self.texts.full_text = owned(accumulated);
    }

    /// The refinement finished with `final_text` (the result, or the message
    /// describing its failure).
    pub fn finish_refine(&mut self, final_text: String)
        ensures
            !final(self).is_refining,
            !final(self).display.is_streaming_active,
            final(self).texts.full_text == final_text,
            final(self).display.pending_text == Some(final_text),
            final(self).texts.text_history@ == old(self).texts.text_history@,
            final(self).texts.redo_history@ == old(self).texts.redo_history@,
            *final(self) == (WindowState {
                texts: final(self).texts,
                display: DisplayState {
                    pending_text: final(self).display.pending_text,
                    is_streaming_active: false,
                    ..old(self).display
                },
                is_refining: false,
                ..*old(self)
            }),
    {
        self.is_refining = false;
        self.display.is_streaming_active = false;
        let pending = final_text.clone();
        self.texts.full_text = final_text;
        self.display.pending_text = Some(pending);
    }

    /// Toggle markdown mode; refused (`None`) while refining or streaming.
    /// Returns the new mode.
    pub fn toggle_markdown(&mut self) -> (now_markdown: Option<bool>)
        ensures
            (old(self).is_refining || old(self).display.is_streaming_active) ==> now_markdown is None
                && final(self).is_markdown_mode == old(self).is_markdown_mode,
            !(old(self).is_refining || old(self).display.is_streaming_active) ==> now_markdown == Some(
                !old(self).is_markdown_mode,
            ) && final(self).is_markdown_mode == !old(self).is_markdown_mode,
            *final(self) == (WindowState { is_markdown_mode: final(self).is_markdown_mode, ..*old(self) }),
    {
        if self.is_refining || self.display.is_streaming_active {
            return None;
        }
        self.is_markdown_mode = !self.is_markdown_mode;
        Some(self.is_markdown_mode)
    }

    /// Undo from a click inside the window: see
    /// [`TextHistory::undo_keep_nonempty`]; when a text was restored the
    /// layout is marked stale and browsing ends.
    pub fn undo_from_click(&mut self) -> (restored: Option<String>)
        ensures
            restored == undo_text(old(self).texts@),
            final(self).texts@ == undo_keep_step(old(self).texts@),
            restored is Some ==> final(self).display.font_cache_dirty && !final(self).nav.is_browsing,
            restored is None ==> final(self).display == old(self).display && final(self).nav == old(self).nav,
            *final(self) == (WindowState {
                texts: final(self).texts,
                display: DisplayState { font_cache_dirty: final(self).display.font_cache_dirty, ..old(self).display },
                nav: Navigation { is_browsing: final(self).nav.is_browsing, ..old(self).nav },
                ..*old(self)
            }),
    {
        let r = self.texts.undo_keep_nonempty();
        if r.is_some() {
            self.display.font_cache_dirty = true;
            self.nav.is_browsing = false;
        }
        r
    }

    /// Redo from a click inside the window: see
    /// [`TextHistory::redo_keep_nonempty`].
    pub fn redo_from_click(&mut self) -> (restored: Option<String>)
        ensures
            restored == redo_text(old(self).texts@),
            final(self).texts@ == redo_keep_step(old(self).texts@),
            restored is Some ==> final(self).display.font_cache_dirty && !final(self).nav.is_browsing,
            restored is None ==> final(self).display == old(self).display && final(self).nav == old(self).nav,
            *final(self) == (WindowState {
                texts: final(self).texts,
                display: DisplayState { font_cache_dirty: final(self).display.font_cache_dirty, ..old(self).display },
                nav: Navigation { is_browsing: final(self).nav.is_browsing, ..old(self).nav },
                ..*old(self)
            }),
    {
        let r = self.texts.redo_keep_nonempty();
        if r.is_some() {
            self.display.font_cache_dirty = true;
            self.nav.is_browsing = false;
        }
        r
    }

    /// A navigation of the markdown view: see [`Navigation::on_navigation`];
    /// entering a page also closes the refine bar.
    pub fn navigate(&mut self, url: &str, skip: bool) -> (outcome: NavigationOutcome)
        requires
            old(self).nav.navigation_depth < usize::MAX,
        ensures
            final(self).nav == navigation_step(old(self).nav, url@, skip),
            outcome == (if skip {
                NavigationOutcome::Skipped
            } else if spec_url_kind(url@) == UrlKind::External {
                NavigationOutcome::EnteredPage
            } else if spec_url_kind(url@) == UrlKind::Internal && old(self).nav.is_browsing {
                NavigationOutcome::ReturnedHome
            } else {
                NavigationOutcome::Unchanged
            }),
            outcome == NavigationOutcome::EnteredPage ==> !final(self).is_editing,
            outcome != NavigationOutcome::EnteredPage ==> final(self).is_editing == old(self).is_editing,
            *final(self) == (WindowState { nav: final(self).nav, is_editing: final(self).is_editing, ..*old(self) }),
    {
        let outcome = self.nav.on_navigation(url, skip);
        if outcome == NavigationOutcome::EnteredPage {
            self.is_editing = false;
        }
        outcome
    }

    /// Hover flags after the cursor moved to `(x, y)` in a `w` x `h` window.
    pub fn update_button_hover(&mut self, x: i32, y: i32, w: i32, h: i32)
        requires
            coord_ok(w as int),
            coord_ok(h as int),
        ensures
            final(self).buttons == spec_button_hover(x as int, y as int, w as int, h as int,
                old(self).display.is_streaming_active, old(self).texts.text_history@.len() > 0,
                old(self).texts.redo_history@.len() > 0, old(self).nav, old(self).buttons.on_speaker_btn),
            *final(self) == (WindowState { buttons: final(self).buttons, ..*old(self) }),
    {
        let b = button_hover_at(x, y, w, h, self.display.is_streaming_active,
            self.texts.text_history.len() > 0, self.texts.redo_history.len() > 0, self.nav,
            self.buttons.on_speaker_btn);
        self.buttons = b;
    }

    /// The mouse left the window: no button is hovered any more, and in
    /// plain-text mode the window is no longer hovered.
    pub fn mouse_left(&mut self)
        ensures
            spec_no_hover(final(self).buttons),
            final(self).drag.current_resize_edge == ResizeEdge::NoEdge,
            !old(self).is_markdown_mode ==> !final(self).is_hovered,
            old(self).is_markdown_mode ==> final(self).is_hovered == old(self).is_hovered,
            *final(self) == (WindowState {
                buttons: final(self).buttons,
                drag: DragState { current_resize_edge: ResizeEdge::NoEdge, ..old(self).drag },
                is_hovered: final(self).is_hovered,
                ..*old(self)
            }),
    {
        self.buttons = ButtonHover::none();
        self.drag.current_resize_edge = ResizeEdge::NoEdge;
        if !self.is_markdown_mode {
            self.is_hovered = false;
        }
    }

    /// The left button was released: the interaction ends and, unless the
    /// mouse moved significantly, the hovered button is clicked. Returns
    /// whether a resize ended, and the click action.
    pub fn finish_left_click(&mut self) -> (r: (bool, Option<ClickAction>))
        ensures
            final(self).drag.interaction_mode is Idle,
            r.0 == (old(self).drag.interaction_mode is Resizing),
            old(self).drag.has_moved_significantly ==> r.1 is None,
            !old(self).drag.has_moved_significantly ==> r.1 == Some(spec_click_action(old(self).buttons)),
            *final(self) == (WindowState {
                drag: DragState { interaction_mode: final(self).drag.interaction_mode, ..old(self).drag },
                ..*old(self)
            }),
    {
        let (was_resizing, click) = self.drag.finish_left();
        if click {
            (was_resizing, Some(self.buttons.click_action()))
        } else {
            (was_resizing, None)
        }
    }
}

/// How a text taken for display is shown.
pub enum TextDisplay {
    /// In the plain-text window, which is repainted.
    Plain(String),
    /// Streamed into the markdown view.
    StreamMarkdown(String),
    /// Streaming into the markdown view ended: the final text is rendered
    /// and the view tidied up.
    FinishMarkdownStream(String),
    /// The markdown view is rendered afresh (the flag: whether the window
    /// is hovered).
    RenderMarkdown(String, bool),
}

/// What one tick of the window's refresh timer asks for.
pub struct TimerTick {
    /// The markdown view must show the context quote of a starting
    /// refinement.
    pub refresh_quote: bool,
    /// The window must be repainted.
    pub repaint: bool,
    /// A text to show, if one is due.
    pub display: Option<TextDisplay>,
}

/// A pending text is due for display at `now`.
pub open spec fn pending_due(d: DisplayState, now: u32) -> bool {
    let ended = d.was_streaming_active && !d.is_streaming_active;
    d.pending_text is Some && (ended || !d.is_streaming_active || d.last_text_update_time == 0
        || elapsed_ms(now, d.last_text_update_time) > 16)
}

/// The font size may be recomputed at `now`.
pub open spec fn font_recalc_due(d: DisplayState, now: u32) -> bool {
    d.last_font_calc_time == 0 || elapsed_ms(now, d.last_font_calc_time) >= 200
}

/// The streaming markdown view may be refreshed at `now`.
pub open spec fn webview_due(d: DisplayState, now: u32) -> bool {
    d.last_webview_update_time == 0 || elapsed_ms(now, d.last_webview_update_time) >= 80
}

impl WindowState {
    /// The cursor moved to `(x, y)` in a `w` x `h` window: the edge under it
    /// and the hovered buttons are updated, and a plain-text window becomes
    /// hovered. Returns whether the window just became hovered (leaving it
    /// must then be tracked).
    pub fn on_mouse_move(&mut self, x: i32, y: i32, w: i32, h: i32) -> (entered: bool)
        requires
            coord_ok(w as int),
            coord_ok(h as int),
            coord_ok(x as int),
            coord_ok(y as int),
        ensures
            final(self).drag.current_resize_edge == spec_resize_edge(w as int, h as int, x as int, y as int),
            final(self).buttons == spec_button_hover(x as int, y as int, w as int, h as int,
                old(self).display.is_streaming_active, old(self).texts.text_history@.len() > 0,
                old(self).texts.redo_history@.len() > 0, old(self).nav, old(self).buttons.on_speaker_btn),
            entered == (!old(self).is_markdown_mode && !old(self).is_hovered),
            final(self).is_hovered == (old(self).is_hovered || entered),
            *final(self) == (WindowState {
                drag: DragState { current_resize_edge: final(self).drag.current_resize_edge, ..old(self).drag },
                buttons: final(self).buttons,
                is_hovered: final(self).is_hovered,
                ..*old(self)
            }),
    {
        self.drag.current_resize_edge = get_resize_edge(w, h, x, y);
        self.update_button_hover(x, y, w, h);
        let entered = !self.is_markdown_mode && !self.is_hovered;
        if entered {
            self.is_hovered = true;
        }
        entered
    }

    /// The hover poll of a markdown window: the cursor entered or left the
    /// window rectangle. Returns `Some(true)` on entering, `Some(false)` on
    /// leaving (the view is then resized and its font refitted), `None`
    /// when nothing changed.
    pub fn markdown_hover_poll(&mut self, cursor_inside: bool) -> (change: Option<bool>)
        ensures
            !old(self).is_markdown_mode || cursor_inside == old(self).is_hovered ==> change is None
                && *final(self) == *old(self),
            old(self).is_markdown_mode && cursor_inside && !old(self).is_hovered ==> change == Some(true)
                && *final(self) == (WindowState { is_hovered: true, ..*old(self) }),
            old(self).is_markdown_mode && !cursor_inside && old(self).is_hovered ==> change == Some(false)
                && *final(self) == (WindowState {
                    is_hovered: false,
                    buttons: ButtonHover {
                        on_copy_btn: false,
                        on_undo_btn: false,
                        on_markdown_btn: false,
                        on_download_btn: false,
                        on_back_btn: false,
                        on_forward_btn: false,
                        ..old(self).buttons
                    },
                    ..*old(self)
                }),
    {
        if !self.is_markdown_mode {
            return None;
        }
        if cursor_inside && !self.is_hovered {
            self.is_hovered = true;
            Some(true)
        } else if !cursor_inside && self.is_hovered {
            self.is_hovered = false;
            self.buttons.on_copy_btn = false;
            self.buttons.on_undo_btn = false;
            self.buttons.on_markdown_btn = false;
            self.buttons.on_download_btn = false;
            self.buttons.on_back_btn = false;
            self.buttons.on_forward_btn = false;
            Some(false)
        } else {
            None
        }
    }

    /// One tick of the refresh timer at time `now` (milliseconds): a
    /// refinement starting in a markdown window asks for the context quote;
    /// a pending text is taken when due (see [`pending_due`]) and becomes the
    /// window text, shown in the plain window or in the markdown view.
    pub fn timer_tick(&mut self, now: u32) -> (t: TimerTick)
        ensures
            ({
                let o = *old(self);
                let f = *final(self);
                let refresh = o.is_refining && o.is_markdown_mode && o.display.font_cache_dirty;
                let dirty1 = o.display.font_cache_dirty && !refresh;
                let ended = o.display.was_streaming_active && !o.display.is_streaming_active;
                let due = pending_due(o.display, now);
                &&& t.refresh_quote == refresh
                &&& t.repaint == (o.is_refining || t.display matches Some(TextDisplay::Plain(_)))
                &&& f == (WindowState { texts: f.texts, display: f.display, ..o })
                &&& f.texts.text_history == o.texts.text_history
                &&& f.texts.redo_history == o.texts.redo_history
                &&& f.display.was_streaming_active == (o.display.was_streaming_active && !ended)
                &&& f.display.is_streaming_active == o.display.is_streaming_active
                &&& !due ==> {
                    &&& t.display is None
                    &&& f.texts.full_text == o.texts.full_text
                    &&& f.display == (DisplayState {
                        was_streaming_active: f.display.was_streaming_active,
                        font_cache_dirty: dirty1,
                        ..o.display
                    })
                }
                &&& due ==> {
                    let txt = o.display.pending_text->0;
                    let md = o.is_markdown_mode && !o.is_refining;
                    &&& f.texts.full_text == txt
                    &&& f.display.pending_text is None
                    &&& f.display.last_text_update_time == now
                    &&& f.display.font_cache_dirty == (dirty1 || !o.display.is_streaming_active
                        || font_recalc_due(o.display, now))
                    &&& f.display.last_font_calc_time == (if font_recalc_due(o.display, now) {
                        now
                    } else {
                        o.display.last_font_calc_time
                    })
                    &&& !md ==> t.display == Some(TextDisplay::Plain(txt))
                        && f.display.last_webview_update_time == o.display.last_webview_update_time
                    &&& md && o.is_markdown_streaming && o.display.is_streaming_active ==> {
                        &&& t.display == (if webview_due(o.display, now) {
                            Some(TextDisplay::StreamMarkdown(txt))
                        } else {
                            None
                        })
                        &&& f.display.last_webview_update_time == (if webview_due(o.display, now) {
                            now
                        } else {
                            o.display.last_webview_update_time
                        })
                    }
                    &&& md && o.is_markdown_streaming && !o.display.is_streaming_active ==> t.display
                        == Some(TextDisplay::FinishMarkdownStream(txt)) && f.display.last_webview_update_time == 0
                    &&& md && !o.is_markdown_streaming ==> t.display == Some(
                        TextDisplay::RenderMarkdown(txt, o.is_hovered),
                    ) && f.display.last_webview_update_time == o.display.last_webview_update_time
                }
            }),
    {
        let refresh_quote = self.is_refining && self.is_markdown_mode && self.display.font_cache_dirty;
        if refresh_quote {
            self.display.font_cache_dirty = false;
        }
        let update = self.display.take_pending_text(now);
        let display = match update {
            Some(txt) => {
                self.display.note_font_recalc(now);
                self.texts.full_text = txt.clone();
                if self.is_markdown_mode && !self.is_refining {
                    if self.is_markdown_streaming && self.display.is_streaming_active {
                        if self.display.webview_refresh_due(now) {
                            Some(TextDisplay::StreamMarkdown(txt))
                        } else {
                            None
                        }
                    } else if self.is_markdown_streaming {
                        self.display.last_webview_update_time = 0;
                        Some(TextDisplay::FinishMarkdownStream(txt))
                    } else {
                        Some(TextDisplay::RenderMarkdown(txt, self.is_hovered))
                    }
                } else {
                    Some(TextDisplay::Plain(txt))
                }
            },
            None => None,
        };
        let repaint = self.is_refining || match &display {
            Some(TextDisplay::Plain(_)) => true,
            _ => false,
        };
        TimerTick { refresh_quote, repaint, display }
    }
}

/// Background colours of a chain of result windows on a dark theme; the
/// first is the primary window's.
pub const CHAIN_PALETTE: [u32; 5] = [0x001a1a1c, 0x00113832, 0x00162a4d, 0x00311b3e, 0x004a2c22];

/// Background colours of a chain of result windows on a light theme.
pub const CHAIN_PALETTE_LIGHT: [u32; 5] = [0x00f5f5f7, 0x00e0f2f1, 0x00e3f2fd, 0x00f3e5f5, 0x00fbe9e7];

/// The palette entry of the `visible_index`-th window of a chain: the first
/// window takes the primary colour, the others cycle through the rest.
pub open spec fn chain_color_index(visible_index: int) -> int {
    if visible_index == 0 { 0 } else { (visible_index - 1) % 4 + 1 }
}

/// Background colour of the `visible_index`-th window of a chain.
pub fn get_chain_color(visible_index: usize, is_dark: bool) -> (c: u32)
    ensures
        is_dark ==> c == CHAIN_PALETTE[chain_color_index(visible_index as int)],
        !is_dark ==> c == CHAIN_PALETTE_LIGHT[chain_color_index(visible_index as int)],
{
    let palette = if is_dark { CHAIN_PALETTE } else { CHAIN_PALETTE_LIGHT };
    if visible_index == 0 {
        palette[0]
    } else {
        let cycle_idx = (visible_index - 1) % (palette.len() - 1);
        palette[cycle_idx + 1]
    }
}

/// The text accumulated from a stream after one more chunk: a chunk that
/// starts with `wipe_signal` replaces what came before with its remainder.
pub open spec fn accumulated(acc: Seq<char>, chunk: Seq<char>, wipe_signal: Seq<char>) -> Seq<char> {
    if starts_with(chunk, wipe_signal) {
        chunk.skip(wipe_signal.len() as int)
    } else {
        acc + chunk
    }
}

/// Add a streamed chunk to the accumulated text (see [`accumulated`]).
pub fn accumulate_chunk(acc: &mut String, chunk: &str, wipe_signal: &str)
    ensures
        final(acc)@ == accumulated(old(acc)@, chunk@, wipe_signal@),
{
    if crate::text::starts_with_str(chunk, wipe_signal) {
        let v = to_chars(chunk);
        let n = wipe_signal.unicode_len();
        let rest = crate::text::chars_to_string_range(&v, n, v.len());
        assert(v@.subrange(n as int, v@.len() as int) =~= chunk@.skip(wipe_signal@.len() as int));
        *acc = rest;
    } else {
        acc.append(chunk);
    }
}

/// Vertical centre of the browsing buttons.
pub open spec fn nav_button_center_y(h: int) -> int {
    if h < 52 { div2_trunc(h) } else { h - 12 - 14 }
}

/// The back button (left side) shown while browsing.
pub open spec fn back_button_rect(h: int) -> Rect {
    let cy = nav_button_center_y(h);
    mk_rect(12, cy - 14, 40, cy + 14)
}

/// The forward button (right side) shown while browsing.
pub open spec fn forward_button_rect(w: int, h: int) -> Rect {
    let cy = nav_button_center_y(h);
    let cx = w - 12 - 14;
    mk_rect(cx - 14, cy - 14, cx + 14, cy + 14)
}

fn nav_center_y(h: i32) -> (cy: i32)
    requires
        coord_ok(h as int),
    ensures
        cy == nav_button_center_y(h as int),
{
    if h < 52 { h / 2 } else { h - 12 - 14 }
}

fn back_button(h: i32) -> (r: Rect)
    requires
        coord_ok(h as int),
    ensures
        r == back_button_rect(h as int),
        wide_ok(r),
{
    let cy = nav_center_y(h);
    Rect { left: 26 - 14, top: cy - 14, right: 26 + 14, bottom: cy + 14 }
}

fn forward_button(w: i32, h: i32) -> (r: Rect)
    requires
        coord_ok(w as int),
        coord_ok(h as int),
    ensures
        r == forward_button_rect(w as int, h as int),
        wide_ok(r),
{
    let cy = nav_center_y(h);
    let cx = w - 12 - 14;
    Rect { left: cx - 14, top: cy - 14, right: cx + 14, bottom: cy + 14 }
}

pub open spec fn spec_refine_request_views(full: Seq<char>, preset: Seq<char>, user: Seq<char>) -> (Seq<char>, Seq<char>) {
    if is_blank(full) && preset.len() != 0 { (user, preset) } else { (full, user) }
}

/// What a refinement sends: a window with text (anything but whitespace)
/// sends that text with the typed prompt as the instruction, whatever the
/// preset's prompt; only a window without text and with a preset prompt
/// sends the typed prompt as the text and the preset's prompt as the
/// instruction; a window with neither sends its (blank) text and the typed
/// prompt. The typed prompt is sent in every case.
pub proof fn lemma_refine_request_keeps_the_text(full: Seq<char>, preset: Seq<char>, user: Seq<char>)
    ensures
        !is_blank(full) ==> spec_refine_request_views(full, preset, user) == (full, user),
        is_blank(full) && preset.len() > 0 ==> spec_refine_request_views(full, preset, user) == (user, preset),
        is_blank(full) && preset.len() == 0 ==> spec_refine_request_views(full, preset, user) == (full, user),
        spec_refine_request_views(full, preset, user).0 == user || spec_refine_request_views(full, preset, user).1
            == user,
{
}

pub open spec fn spec_speaker_action(s: TtsState, text: Seq<char>, is_speaking: bool) -> SpeakerAction {
    if s.tts_loading {
        SpeakerAction::Ignore
    } else if s.tts_request_id != 0 && is_speaking {
        SpeakerAction::Stop
    } else if text.len() != 0 {
        SpeakerAction::Start
    } else {
        SpeakerAction::NoText
    }
}

pub open spec fn spec_click_action(s: ButtonHover) -> ClickAction {
    if s.on_back_btn {
        ClickAction::Back
    } else if s.on_forward_btn {
        ClickAction::Forward
    } else if s.on_undo_btn {
        ClickAction::Undo
    } else if s.on_redo_btn {
        ClickAction::Redo
    } else if s.on_edit_btn {
        ClickAction::Edit
    } else if s.on_copy_btn {
        ClickAction::Copy
    } else if s.on_markdown_btn {
        ClickAction::Markdown
    } else if s.on_download_btn {
        ClickAction::Download
    } else if s.on_speaker_btn {
        ClickAction::Speaker
    } else {
        ClickAction::Close
    }
}

/// The browsing state after the markdown view navigated to `url`.
pub open spec fn navigation_step(n: Navigation, url: Seq<char>, skip: bool) -> Navigation {
    if skip || spec_url_kind(url) == UrlKind::Other {
        n
    } else if spec_url_kind(url) == UrlKind::External {
        Navigation {
            is_browsing: true,
            navigation_depth: (n.navigation_depth + 1) as usize,
            max_navigation_depth: (n.navigation_depth + 1) as usize,
        }
    } else if n.is_browsing {
        Navigation { is_browsing: false, navigation_depth: 0, max_navigation_depth: 0 }
    } else {
        n
    }
}

/// Every navigation step keeps the browsing depth within the deepest page
/// reached.
pub proof fn lemma_navigation_keeps_depth_bound(n: Navigation, url: Seq<char>, skip: bool)
    requires
        nav_ok(n),
        n.navigation_depth < usize::MAX,
    ensures
        nav_ok(navigation_step(n, url, skip)),
        nav_ok(back_step(n)),
        nav_ok(forward_step(n)),
{
}

/// The browsing state after going back one page.
pub open spec fn back_step(n: Navigation) -> Navigation {
    let d = if n.navigation_depth > 0 { (n.navigation_depth - 1) as usize } else { 0usize };
    if d == 0 {
        Navigation { is_browsing: false, navigation_depth: 0, max_navigation_depth: 0 }
    } else {
        Navigation { navigation_depth: d, ..n }
    }
}

/// The browsing state after going forward one page, when possible.
pub open spec fn forward_step(n: Navigation) -> Navigation {
    if n.navigation_depth < n.max_navigation_depth {
        Navigation { is_browsing: true, navigation_depth: (n.navigation_depth + 1) as usize, ..n }
    } else {
        n
    }
}

/// A navigation marked to be skipped (the one that going back or forward
/// starts) leaves the browsing state as it is.
pub proof fn lemma_marked_navigation_is_skipped(n: Navigation, url: Seq<char>)
    ensures
        navigation_step(n, url, true) == n,
{
}

/// Going back from a page at least two deep and then forward again returns
/// to the same page.
pub proof fn lemma_back_then_forward(n: Navigation)
    requires
        nav_ok(n),
        n.is_browsing,
        n.navigation_depth >= 2,
    ensures
        forward_step(back_step(n)) == n,
{
}

/// What the floating button canvas shows for one result window.
#[derive(Clone, Copy, Debug, PartialEq, Eq, Structural)]
pub struct CanvasButtons {
    pub copy_success: bool,
    pub has_undo: bool,
    pub has_redo: bool,
    pub nav_depth: usize,
    pub max_nav_depth: usize,
    pub tts_loading: bool,
    pub tts_speaking: bool,
    pub is_markdown: bool,
}

pub open spec fn spec_canvas_buttons(s: WindowState) -> CanvasButtons {
    CanvasButtons {
        copy_success: s.copy_success,
        has_undo: s.texts.text_history@.len() > 0,
        has_redo: s.texts.redo_history@.len() > 0,
        nav_depth: s.nav.navigation_depth,
        max_nav_depth: s.nav.max_navigation_depth,
        tts_loading: s.tts.tts_loading,
        tts_speaking: s.tts.tts_request_id != 0 && !s.tts.tts_loading,
        is_markdown: s.is_markdown_mode,
    }
}

/// Buttons of a window with no state: nothing to undo, redo or go back to.
pub open spec fn no_canvas_buttons() -> CanvasButtons {
    CanvasButtons {
        copy_success: false,
        has_undo: false,
        has_redo: false,
        nav_depth: 0,
        max_nav_depth: 0,
        tts_loading: false,
        tts_speaking: false,
        is_markdown: false,
    }
}

/// The button flags of a window for the canvas; all off for a window
/// without state.
pub fn canvas_buttons(state: Option<&WindowState>) -> (b: CanvasButtons)
    ensures
        b == (match state {
            Some(s) => spec_canvas_buttons(*s),
            None => no_canvas_buttons(),
        }),
{
    match state {
        Some(s) => CanvasButtons {
            copy_success: s.copy_success,
            has_undo: s.texts.text_history.len() > 0,
            has_redo: s.texts.redo_history.len() > 0,
            nav_depth: s.nav.navigation_depth,
            max_nav_depth: s.nav.max_navigation_depth,
            tts_loading: s.tts.tts_loading,
            tts_speaking: s.tts.is_speaking(),
            is_markdown: s.is_markdown_mode,
        },
        None => CanvasButtons {
            copy_success: false,
            has_undo: false,
            has_redo: false,
            nav_depth: 0,
            max_nav_depth: 0,
            tts_loading: false,
            tts_speaking: false,
            is_markdown: false,
        },
    }
}

impl WindowState {
    /// The window is painted at `now` with a `width` x `height` client
    /// area. After a change of size the text's font is refitted, but only
    /// once resizing has paused for more than 100 ms (or on the first
    /// change); the size and the time of the change are recorded.
    pub fn note_client_size(&mut self, width: i32, height: i32, now: u32)
        ensures
            (old(self).last_w != width || old(self).last_h != height) ==> {
                &&& final(self).last_w == width
                &&& final(self).last_h == height
                &&& final(self).last_resize_time == now
                &&& final(self).display.font_cache_dirty == (old(self).display.font_cache_dirty
                    || elapsed_ms(now, old(self).last_resize_time) > 100 || old(self).last_resize_time == 0)
            },
            (old(self).last_w == width && old(self).last_h == height) ==> final(self).last_w == old(self).last_w
                && final(self).last_h == old(self).last_h && final(self).last_resize_time
                == old(self).last_resize_time && final(self).display.font_cache_dirty
                == old(self).display.font_cache_dirty,
            final(self).texts@ == old(self).texts@,
            final(self).display.pending_text == old(self).display.pending_text,
    {
        if self.last_w != width || self.last_h != height {
            let since = elapsed_since(now, self.last_resize_time);
            if since > 100 || self.last_resize_time == 0 {
                self.display.font_cache_dirty = true;
            }
            self.last_resize_time = now;
            self.last_w = width;
            self.last_h = height;
        }
    }

    /// The broom cursor is drawn while the window is hovered away from its
    /// buttons and edges.
    pub fn shows_broom(&self) -> (r: bool)
        ensures
            r == (self.is_hovered && spec_no_hover(self.buttons) && self.drag.current_resize_edge
                == ResizeEdge::NoEdge),
    {
        self.is_hovered && !self.buttons.on_copy_btn && !self.buttons.on_edit_btn && !self.buttons.on_undo_btn
            && !self.buttons.on_redo_btn && !self.buttons.on_markdown_btn && !self.buttons.on_back_btn
            && !self.buttons.on_forward_btn && !self.buttons.on_download_btn && !self.buttons.on_speaker_btn
            && self.drag.current_resize_edge == ResizeEdge::NoEdge
    }
}

impl WindowState {
    /// The font fit of the plain-text window settled on `size` for a
    /// `width` x `height` client area (see [`crate::text_fit`]): the size
    /// is stored and the font cache is clean again. A fitted size lies in
    /// 8..=18 while refining and in 2..=150 otherwise.
    pub fn record_font_fit(&mut self, width: i32, height: i32, size: i32)
        requires
            width >= i32::MIN + 40,
            spec_text_box(width as int, height as int, old(self).is_refining).min_size <= size,
            size <= max_int(
                spec_text_box(width as int, height as int, old(self).is_refining).min_size as int,
                spec_text_box(width as int, height as int, old(self).is_refining).max_size as int,
            ),
        ensures
            final(self).cached_font_size == size,
            !final(self).display.font_cache_dirty,
            old(self).is_refining ==> 8 <= final(self).cached_font_size <= 18,
            !old(self).is_refining ==> 2 <= final(self).cached_font_size <= 150,
            *final(self) == (WindowState {
                cached_font_size: size,
                display: DisplayState { font_cache_dirty: false, ..old(self).display },
                ..*old(self)
            }),
    {
        self.cached_font_size = size;
        self.display.font_cache_dirty = false;
    }
}

/// What going back does to the markdown view.
pub enum BackAction {
    /// Back at the window's own result: the view is rebuilt from this text
    /// (the flag: whether the window is hovered).
    Rebuild(String, bool),
    /// Deeper in the browsing history: the view goes back one page.
    HistoryBack,
}

impl WindowState {
    /// The back button of the markdown view. Back at the window's own
    /// result the view is rebuilt from the window text; deeper, the view
    /// goes back one page and that navigation is marked to be skipped.
    pub fn go_back(&mut self) -> (a: BackAction)
        ensures
            final(self).nav == back_step(old(self).nav),
            final(self).nav.navigation_depth == 0 ==> (a matches BackAction::Rebuild(t, h) && t@
                == old(self).texts.full_text@ && h == old(self).is_hovered)
                && final(self).skip_next_navigation == old(self).skip_next_navigation,
            final(self).nav.navigation_depth != 0 ==> a is HistoryBack && final(self).skip_next_navigation,
            *final(self) == (WindowState {
                nav: final(self).nav,
                skip_next_navigation: final(self).skip_next_navigation,
                ..*old(self)
            }),
    {
        let at_result = self.nav.go_back();
        if at_result {
            BackAction::Rebuild(self.texts.full_text.clone(), self.is_hovered)
        } else {
            self.skip_next_navigation = true;
            BackAction::HistoryBack
        }
    }

    /// The forward button of the markdown view: the next navigation is
    /// marked to be skipped, and the view goes forward one page when there
    /// is one (returns whether it does).
    pub fn go_forward(&mut self) -> (moved: bool)
        ensures
            final(self).nav == forward_step(old(self).nav),
            moved == (old(self).nav.navigation_depth < old(self).nav.max_navigation_depth),
            final(self).skip_next_navigation,
            *final(self) == (WindowState { nav: final(self).nav, skip_next_navigation: true, ..*old(self) }),
    {
        self.skip_next_navigation = true;
        self.nav.go_forward()
    }

    /// The markdown view navigated to `url`: a navigation marked to be
    /// skipped only clears the mark; any other is handled by
    /// [`WindowState::navigate`].
    pub fn on_view_navigation(&mut self, url: &str) -> (outcome: NavigationOutcome)
        requires
            old(self).nav.navigation_depth < usize::MAX,
        ensures
            !final(self).skip_next_navigation,
            final(self).nav == navigation_step(old(self).nav, url@, old(self).skip_next_navigation),
            old(self).skip_next_navigation ==> outcome == NavigationOutcome::Skipped,
            outcome == NavigationOutcome::EnteredPage ==> !final(self).is_editing,
            outcome != NavigationOutcome::EnteredPage ==> final(self).is_editing == old(self).is_editing,
            !old(self).skip_next_navigation ==> outcome == (if spec_url_kind(url@) == UrlKind::External {
                NavigationOutcome::EnteredPage
            } else if spec_url_kind(url@) == UrlKind::Internal && old(self).nav.is_browsing {
                NavigationOutcome::ReturnedHome
            } else {
                NavigationOutcome::Unchanged
            }),
            *final(self) == (WindowState {
                nav: final(self).nav,
                is_editing: final(self).is_editing,
                skip_next_navigation: false,
                ..*old(self)
            }),
    {
        let skip = self.skip_next_navigation;
        self.skip_next_navigation = false;
        self.navigate(url, skip)
    }
}

} // verus!
