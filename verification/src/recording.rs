//! The audio-recording overlay: a window that is created once, kept hidden
//! between recordings and shown while one runs, driven by the signals the
//! recording thread shares with it.

use vstd::prelude::*;
use crate::layout::{coord_ok, div2_trunc};
use crate::text::{owned, push_str, str_eq};

verus! {

/// Life of the overlay window.
#[derive(Clone, Copy, Debug, PartialEq, Eq, Structural)]
pub enum OverlayPhase {
    /// No window yet.
    NotCreated,
    /// The window exists (or is being created) and is hidden.
    Hidden,
    /// A recording is shown.
    Visible,
}

/// The overlay's state and the signals shared with the recording thread.
#[derive(Clone, Copy, Debug, PartialEq, Eq, Structural)]
pub struct RecordingOverlay {
    pub phase: OverlayPhase,
    /// Handle of the window, 0 before it exists.
    pub hwnd: isize,
    /// The recording was stopped and is being processed.
    pub stop: bool,
    pub pause: bool,
    /// The recording was cancelled.
    pub abort: bool,
    pub warmup_complete: bool,
    pub initializing: bool,
    /// The preset asked for no visible overlay.
    pub hidden_ui: bool,
    /// When the overlay was last shown (milliseconds).
    pub last_show_time: u64,
    pub last_theme_dark: bool,
}

/// What a request to stop the recording does.
#[derive(Clone, Copy, Debug, PartialEq, Eq, Structural)]
pub enum StopAction {
    Nothing,
    /// First stop: the recording is processed; the page shows it.
    UpdateState,
    /// Second stop: the recording is cancelled and the overlay hidden.
    Hide,
}

/// What a request to show the overlay does.
#[derive(Clone, Copy, Debug, PartialEq, Eq, Structural)]
pub enum ShowAction {
    /// The window is being created: tell the user and show it once ready.
    CreateThenShow,
    /// Show the existing window.
    Show(isize),
    /// The window was lost: it is created again and the user told.
    Recreate,
}

/// A message of the overlay's page.
#[derive(Clone, Copy, Debug, PartialEq, Eq, Structural)]
pub enum RecordingPageAction {
    Nothing,
    /// Paused or resumed.
    PauseToggled,
    /// Cancelled: the overlay hides.
    Cancel,
    /// The page is ready; when the flag is set, it is shown shortly.
    Ready(bool),
    DragWindow,
}

/// The overlay after a stop request, and what the request does.
pub open spec fn stop_step(o: RecordingOverlay) -> (RecordingOverlay, StopAction) {
    if o.phase != OverlayPhase::Visible {
        (o, StopAction::Nothing)
    } else if o.stop {
        (RecordingOverlay { abort: true, ..o }, if o.hwnd != 0 { StopAction::Hide } else { StopAction::Nothing })
    } else {
        (RecordingOverlay { stop: true, ..o }, if o.hwnd != 0 {
            StopAction::UpdateState
        } else {
            StopAction::Nothing
        })
    }
}

/// Stopping a shown recording twice: the first stop has it processed, the
/// second cancels it and hides the overlay.
pub proof fn lemma_second_stop_cancels(o: RecordingOverlay)
    requires
        o.phase == OverlayPhase::Visible,
        o.hwnd != 0,
        !o.stop,
    ensures
        stop_step(o).1 == StopAction::UpdateState,
        stop_step(stop_step(o).0).1 == StopAction::Hide,
        stop_step(stop_step(o).0).0.abort,
{
}

impl RecordingOverlay {
    /// Before the window exists.
    pub fn new() -> (o: RecordingOverlay)
        ensures
            o.phase == OverlayPhase::NotCreated,
            o.hwnd == 0,
            !o.stop && !o.pause && !o.abort && !o.warmup_complete && !o.initializing,
            o.last_theme_dark,
    {
        RecordingOverlay {
            phase: OverlayPhase::NotCreated,
            hwnd: 0,
            stop: false,
            pause: false,
            abort: false,
            warmup_complete: false,
            initializing: false,
            hidden_ui: false,
            last_show_time: 0,
            last_theme_dark: true,
        }
    }

    /// Whether a recording is shown.
    pub fn is_recording_overlay_active(&self) -> (r: bool)
        ensures
            r == (self.phase == OverlayPhase::Visible),
    {
        self.phase == OverlayPhase::Visible
    }

    /// Start creating the window unless it exists; returns whether the
    /// creation must start.
    pub fn warmup_recording_overlay(&mut self) -> (start: bool)
        ensures
            start == (old(self).phase == OverlayPhase::NotCreated),
            start ==> *final(self) == (RecordingOverlay { phase: OverlayPhase::Hidden, ..*old(self) }),
            !start ==> *final(self) == *old(self),
    {
        if self.phase == OverlayPhase::NotCreated {
            self.phase = OverlayPhase::Hidden;
            true
        } else {
            false
        }
    }

    /// Stop the recording (the stop key or button): the first stop lets it
    /// be processed, a second one cancels it.
    pub fn stop_recording_and_submit(&mut self) -> (a: StopAction)
        ensures
            (*final(self), a) == stop_step(*old(self)),
            old(self).phase != OverlayPhase::Visible ==> a == StopAction::Nothing && *final(self) == *old(self),
            old(self).phase == OverlayPhase::Visible && old(self).stop ==> *final(self) == (RecordingOverlay {
                abort: true,
                ..*old(self)
            }) && a == (if old(self).hwnd != 0 { StopAction::Hide } else { StopAction::Nothing }),
            old(self).phase == OverlayPhase::Visible && !old(self).stop ==> *final(self) == (RecordingOverlay {
                stop: true,
                ..*old(self)
            }) && a == (if old(self).hwnd != 0 { StopAction::UpdateState } else { StopAction::Nothing }),
    {
        if self.phase != OverlayPhase::Visible {
            return StopAction::Nothing;
        }
        if self.stop {
            self.abort = true;
            if self.hwnd != 0 { StopAction::Hide } else { StopAction::Nothing }
        } else {
            self.stop = true;
            if self.hwnd != 0 { StopAction::UpdateState } else { StopAction::Nothing }
        }
    }

    /// Show the overlay for a new recording: a window that does not exist
    /// (or got stuck while being created) is created first; an existing one
    /// is shown with all signals cleared.
    pub fn show_recording_overlay(&mut self) -> (a: ShowAction)
        ensures
            (old(self).phase == OverlayPhase::NotCreated || (old(self).phase == OverlayPhase::Hidden
                && old(self).hwnd == 0)) ==> a == ShowAction::CreateThenShow && *final(self) == (
            RecordingOverlay { phase: OverlayPhase::Hidden, ..*old(self) }),
            !(old(self).phase == OverlayPhase::NotCreated || (old(self).phase == OverlayPhase::Hidden
                && old(self).hwnd == 0)) && old(self).hwnd != 0 ==> a == ShowAction::Show(old(self).hwnd)
                && *final(self) == (RecordingOverlay {
                stop: false,
                pause: false,
                abort: false,
                warmup_complete: false,
                ..*old(self)
            }),
            !(old(self).phase == OverlayPhase::NotCreated || (old(self).phase == OverlayPhase::Hidden
                && old(self).hwnd == 0)) && old(self).hwnd == 0 ==> a == ShowAction::Recreate && *final(self)
                == (RecordingOverlay { phase: OverlayPhase::Hidden, ..*old(self) }),
    {
        if self.phase == OverlayPhase::NotCreated || (self.phase == OverlayPhase::Hidden && self.hwnd == 0) {
            self.phase = OverlayPhase::NotCreated;
            self.warmup_recording_overlay();
            return ShowAction::CreateThenShow;
        }
        if self.hwnd != 0 {
            self.stop = false;
            self.pause = false;
            self.abort = false;
            self.warmup_complete = false;
            ShowAction::Show(self.hwnd)
        } else {
            self.phase = OverlayPhase::NotCreated;
            self.warmup_recording_overlay();
            ShowAction::Recreate
        }
    }

    /// The window received the show request at `now` for a preset whose
    /// overlay is `hidden` or not. Returns whether to wait for the page
    /// (with a timeout) before showing.
    pub fn on_show(&mut self, hidden: bool, now: u64) -> (wait_for_page: bool)
        ensures
            wait_for_page == !hidden,
            *final(self) == (RecordingOverlay {
                phase: OverlayPhase::Visible,
                hidden_ui: hidden,
                last_show_time: now,
                ..*old(self)
            }),
    {
        self.phase = OverlayPhase::Visible;
        self.hidden_ui = hidden;
        self.last_show_time = now;
        !hidden
    }

    /// The overlay is hidden until the next recording.
    pub fn on_hide(&mut self)
        ensures
            *final(self) == (RecordingOverlay { phase: OverlayPhase::Hidden, ..*old(self) }),
    {
        self.phase = OverlayPhase::Hidden;
    }

    /// The window's loop ended: the window is gone.
    pub fn on_window_closed(&mut self)
        ensures
            *final(self) == (RecordingOverlay { phase: OverlayPhase::NotCreated, ..*old(self) }),
    {
        self.phase = OverlayPhase::NotCreated;
    }

    /// A message of the overlay's page.
    pub fn handle_page_message(&mut self, body: &str) -> (a: RecordingPageAction)
        ensures
            body@ == "pause_toggle"@ ==> a == RecordingPageAction::PauseToggled && *final(self) == (
            RecordingOverlay { pause: !old(self).pause, ..*old(self) }),
            body@ != "pause_toggle"@ && (body@ == "cancel"@ || body@ == "close"@) ==> a
                == RecordingPageAction::Cancel && *final(self) == (RecordingOverlay {
                abort: true,
                stop: true,
                ..*old(self)
            }),
            body@ != "pause_toggle"@ && body@ != "cancel"@ && body@ != "close"@ && body@ == "ready"@ ==> a
                == RecordingPageAction::Ready(!old(self).hidden_ui) && *final(self) == *old(self),
            body@ != "pause_toggle"@ && body@ != "cancel"@ && body@ != "close"@ && body@ != "ready"@ ==> *final(self)
                == *old(self) && a == (if body@ == "drag_window"@ {
                RecordingPageAction::DragWindow
            } else {
                RecordingPageAction::Nothing
            }),
    {
        if str_eq(body, "pause_toggle") {
            self.pause = !self.pause;
            RecordingPageAction::PauseToggled
        } else if str_eq(body, "cancel") || str_eq(body, "close") {
            self.abort = true;
            self.stop = true;
            RecordingPageAction::Cancel
        } else if str_eq(body, "ready") {
            RecordingPageAction::Ready(!self.hidden_ui)
        } else if str_eq(body, "drag_window") {
            RecordingPageAction::DragWindow
        } else {
            RecordingPageAction::Nothing
        }
    }

    /// A request to close the window at `now`: honoured while stopping or
    /// cancelling, and otherwise ignored during the 2 seconds after the
    /// overlay was shown. Returns whether to hide.
    pub fn on_close_request(&self, now: u64) -> (hide: bool)
        ensures
            hide == (self.stop || self.abort || !(now > self.last_show_time && now - self.last_show_time
                < 2000)),
    {
        if self.stop || self.abort {
            true
        } else {
            !(now > self.last_show_time && now - self.last_show_time < 2000)
        }
    }

    /// The Escape key while recording stops it (and the key is swallowed).
    pub fn on_escape(&mut self) -> (r: (bool, StopAction))
        ensures
            r.0 == (old(self).phase == OverlayPhase::Visible),
            !r.0 ==> *final(self) == *old(self) && r.1 == StopAction::Nothing,
            r.0 ==> (*final(self), r.1) == stop_step(*old(self)),
    {
        if self.is_recording_overlay_active() {
            let a = self.stop_recording_and_submit();
            (true, a)
        } else {
            (false, StopAction::Nothing)
        }
    }

    /// The state the page shows.
    pub fn state_label(&self) -> (s: &'static str)
        ensures
            self.stop ==> s@ == "processing"@,
            !self.stop && self.pause ==> s@ == "paused"@,
            !self.stop && !self.pause && self.initializing ==> s@ == "initializing"@,
            !self.stop && !self.pause && !self.initializing && !self.warmup_complete ==> s@ == "warmup"@,
            !self.stop && !self.pause && !self.initializing && self.warmup_complete ==> s@ == "recording"@,
    {
        if self.stop {
            "processing"
        } else if self.pause {
            "paused"
        } else if self.initializing {
            "initializing"
        } else if !self.warmup_complete {
            "warmup"
        } else {
            "recording"
        }
    }

    /// The theme is now `dark` or light: returns the script that restyles
    /// the page when it changed.
    pub fn theme_update(&mut self, dark: bool) -> (script: Option<String>)
        ensures
            dark == old(self).last_theme_dark ==> script is None && *final(self) == *old(self),
            dark != old(self).last_theme_dark ==> *final(self) == (RecordingOverlay {
                last_theme_dark: dark,
                ..*old(self)
            }) && (script matches Some(s) && s@ == theme_script(dark)),
    {
        if dark == self.last_theme_dark {
            return None;
        }
        self.last_theme_dark = dark;
        Some(theme_script_text(dark))
    }
}

/// The colours of the page for the dark or light theme.
pub open spec fn theme_colors(dark: bool) -> Seq<Seq<char>> {
    if dark {
        seq![
            "rgba(18, 18, 18, 0.85)"@,
            "rgba(255, 255, 255, 0.1)"@,
            "white"@,
            "rgba(255, 255, 255, 0.7)"@,
            "rgba(255, 255, 255, 0.05)"@,
            "rgba(255, 255, 255, 0.15)"@,
            "rgba(255, 255, 255, 0.8)"@,
            "0 1px 2px rgba(0, 0, 0, 0.3)"@,
        ]
    } else {
        seq![
            "rgba(255, 255, 255, 0.92)"@,
            "rgba(0, 0, 0, 0.1)"@,
            "#222222"@,
            "rgba(0, 0, 0, 0.6)"@,
            "rgba(0, 0, 0, 0.05)"@,
            "rgba(0, 0, 0, 0.1)"@,
            "rgba(0, 0, 0, 0.7)"@,
            "0 1px 2px rgba(255, 255, 255, 0.3)"@,
        ]
    }
}

/// The script that restyles the page: `updateTheme(dark, colours...)`.
pub open spec fn theme_script(dark: bool) -> Seq<char> {
    let c = theme_colors(dark);
    "if(window.updateTheme) window.updateTheme("@ + (if dark { "true"@ } else { "false"@ }) + ", '"@ + c[0]
        + "', '"@ + c[1] + "', '"@ + c[2] + "', '"@ + c[3] + "', '"@ + c[4] + "', '"@ + c[5] + "', '"@ + c[6]
        + "', '"@ + c[7] + "');"@
}

fn theme_script_text(dark: bool) -> (s: String)
    ensures
        s@ == theme_script(dark),
{
    let c: [&'static str; 8] = if dark {
        [
            "rgba(18, 18, 18, 0.85)",
            "rgba(255, 255, 255, 0.1)",
            "white",
            "rgba(255, 255, 255, 0.7)",
            "rgba(255, 255, 255, 0.05)",
            "rgba(255, 255, 255, 0.15)",
            "rgba(255, 255, 255, 0.8)",
            "0 1px 2px rgba(0, 0, 0, 0.3)",
        ]
    } else {
        [
            "rgba(255, 255, 255, 0.92)",
            "rgba(0, 0, 0, 0.1)",
            "#222222",
            "rgba(0, 0, 0, 0.6)",
            "rgba(0, 0, 0, 0.05)",
            "rgba(0, 0, 0, 0.1)",
            "rgba(0, 0, 0, 0.7)",
            "0 1px 2px rgba(255, 255, 255, 0.3)",
        ]
    };
    let mut s = owned("if(window.updateTheme) window.updateTheme(");
    push_str(&mut s, if dark { "true" } else { "false" });
    push_str(&mut s, ", '");
    push_str(&mut s, c[0]);
    push_str(&mut s, "', '");
    push_str(&mut s, c[1]);
    push_str(&mut s, "', '");
    push_str(&mut s, c[2]);
    push_str(&mut s, "', '");
    push_str(&mut s, c[3]);
    push_str(&mut s, "', '");
    push_str(&mut s, c[4]);
    push_str(&mut s, "', '");
    push_str(&mut s, c[5]);
    push_str(&mut s, "', '");
    push_str(&mut s, c[6]);
    push_str(&mut s, "', '");
    push_str(&mut s, c[7]);
    push_str(&mut s, "');");
    s
}

/// Where the overlay shows: centred horizontally, 100 pixels below the
/// vertical centre.
pub fn overlay_position(screen_w: i32, screen_h: i32, w: i32, h: i32) -> (p: (i32, i32))
    requires
        coord_ok(screen_w as int),
        coord_ok(screen_h as int),
        coord_ok(w as int),
        coord_ok(h as int),
    ensures
        p.0 == div2_trunc(screen_w - w),
        p.1 == div2_trunc(screen_h - h) + 100,
{
    ((screen_w - w) / 2, (screen_h - h) / 2 + 100)
}

/// How a preset's audio is recorded.
#[derive(Clone, Copy, Debug, PartialEq, Eq, Structural)]
pub enum AudioMode {
    /// Streamed live to Gemini.
    GeminiLive,
    /// Streamed to the local Parakeet model.
    Parakeet,
    /// Recorded, then transcribed.
    RecordThenTranscribe,
}

/// Some audio block of the preset (its type and, when its model is known,
/// the model's provider) uses the provider `p`.
pub open spec fn uses_provider(blocks: Seq<(String, Option<String>)>, p: Seq<char>) -> bool {
    exists|i: int|
        0 <= i < blocks.len() && (#[trigger] blocks[i]).0@ == "audio"@ && (blocks[i].1 matches Some(q) && q@ == p)
}

/// The recording mode of a preset from its blocks: live streaming to
/// Gemini when an audio block uses it, else Parakeet, else record and
/// transcribe.
pub fn audio_mode(blocks: &Vec<(String, Option<String>)>) -> (m: AudioMode)
    ensures
        uses_provider(blocks@, "gemini-live"@) ==> m == AudioMode::GeminiLive,
        !uses_provider(blocks@, "gemini-live"@) && uses_provider(blocks@, "parakeet"@) ==> m == AudioMode::Parakeet,
        !uses_provider(blocks@, "gemini-live"@) && !uses_provider(blocks@, "parakeet"@) ==> m
            == AudioMode::RecordThenTranscribe,
{
    let mut gemini = false;
    let mut parakeet = false;
    let mut i: usize = 0;
    while i < blocks.len()
        invariant
            i <= blocks@.len(),
            gemini == uses_provider(blocks@.take(i as int), "gemini-live"@),
            parakeet == uses_provider(blocks@.take(i as int), "parakeet"@),
        decreases blocks@.len() - i,
    {
        let ghost before = blocks@.take(i as int);
        let ghost after = blocks@.take(i + 1);
        proof {
            assert(after =~= before.push(blocks@[i as int]));
            assert forall|p: Seq<char>| uses_provider(after, p) <==> (uses_provider(before, p) || (
            blocks@[i as int].0@ == "audio"@ && (blocks@[i as int].1 matches Some(q) && q@ == p))) by {
                if uses_provider(after, p) {
                    let j = choose|j: int|
                        0 <= j < after.len() && (#[trigger] after[j]).0@ == "audio"@ && (after[j].1 matches Some(q)
                            && q@ == p);
                    if j < before.len() {
                        assert(before[j] == after[j]);
                    }
                }
                if uses_provider(before, p) {
                    let j = choose|j: int|
                        0 <= j < before.len() && (#[trigger] before[j]).0@ == "audio"@ && (before[j].1 matches Some(q)
                            && q@ == p);
                    assert(after[j] == before[j]);
                }
                if blocks@[i as int].0@ == "audio"@ && (blocks@[i as int].1 matches Some(q) && q@ == p) {
                    assert(after[i as int] == blocks@[i as int]);
                }
            }
        }
        let (block_type, provider) = &blocks[i];
        if str_eq(block_type.as_str(), "audio") {
            match provider {
                Some(p) => {
                    if str_eq(p.as_str(), "gemini-live") {
                        gemini = true;
                    }
                    if str_eq(p.as_str(), "parakeet") {
                        parakeet = true;
                    }
                },
                None => {},
            }
        }
        i = i + 1;
    }
    proof {
        assert(blocks@.take(blocks@.len() as int) =~= blocks@);
    }
    if gemini {
        AudioMode::GeminiLive
    } else if parakeet {
        AudioMode::Parakeet
    } else {
        AudioMode::RecordThenTranscribe
    }
}

/// The status lines of the recording overlay in the interface language.
pub struct StatusTexts {
    pub recording: &'static str,
    pub processing: &'static str,
    pub starting: &'static str,
    pub connecting: &'static str,
}

/// Vietnamese (`vi`) and Korean (`ko`) have their own status lines; every
/// other language gets the English ones.
pub open spec fn spec_status_texts(lang: Seq<char>) -> Seq<Seq<char>> {
    if lang == "vi"@ {
        seq!["Đang ghi âm..."@, "Đang xử lý..."@, "Chuẩn bị..."@, "Đang kết nối..."@]
    } else if lang == "ko"@ {
        seq!["녹음 중..."@, "처리 중..."@, "준비 중..."@, "연결 중..."@]
    } else {
        seq!["Recording..."@, "Processing..."@, "Starting..."@, "Connecting..."@]
    }
}

pub fn status_texts(lang: &str) -> (t: StatusTexts)
    ensures
        seq![t.recording@, t.processing@, t.starting@, t.connecting@] == spec_status_texts(lang@),
{
    if crate::text::str_eq(lang, "vi") {
        StatusTexts {
            recording: "Đang ghi âm...",
            processing: "Đang xử lý...",
            starting: "Chuẩn bị...",
            connecting: "Đang kết nối...",
        }
    } else if crate::text::str_eq(lang, "ko") {
        StatusTexts {
            recording: "녹음 중...",
            processing: "처리 중...",
            starting: "준비 중...",
            connecting: "연결 중...",
        }
    } else {
        StatusTexts {
            recording: "Recording...",
            processing: "Processing...",
            starting: "Starting...",
            connecting: "Connecting...",
        }
    }
}

} // verus!
