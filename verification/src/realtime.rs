//! The realtime transcription and translation overlays: what their pages
//! show, the scripts sent to them, the messages their pages post back,
//! their placement, and when committed translation is read aloud.

use vstd::prelude::*;
use vstd::string::StringSliceAdditionalSpecFns;
use vstd::utf8::{
    decode_utf8, encode_scalar, encode_utf8, is_char_boundary, is_continuation_byte, length_of_first_scalar,
    pop_first_scalar, valid_utf8,
};
use crate::layout::{coord_ok, div2_trunc, max_int};
use crate::numbers::{decimal, parse_i32, parse_signed, parse_u32, parse_unsigned, u64_to_decimal};
use crate::text::{
    chars_to_string_range, is_blank, is_blank_str, owned, push_char, push_str, starts_with,
    starts_with_chars, str_eq, to_chars, trailing_ws, trim_end, trim_end_string, trim_start,
    trim_start_string, lemma_trailing_ws_bound,
};

verus! {

/// Gap in pixels between the transcription and the translation overlay.
pub const GAP: i32 = 20;

// ---------------------------------------------------------------------
// Text shown in the overlays
// ---------------------------------------------------------------------

/// The committed part of the text, without its trailing whitespace, and
/// the part still in progress, without its leading whitespace and with a
/// separating space when both are non-empty.
pub open spec fn display_pair(old_raw: Seq<char>, new_raw: Seq<char>) -> (Seq<char>, Seq<char>) {
    let old = trim_end(old_raw);
    let new = trim_start(new_raw);
    if old.len() > 0 && new.len() > 0 {
        (old, seq![' '] + new)
    } else {
        (old, new)
    }
}

/// The committed and the in-progress text as the overlay displays them.
pub fn display_texts(old_raw: &str, new_raw: &str) -> (r: (String, String))
    ensures
        (r.0@, r.1@) == display_pair(old_raw@, new_raw@),
{
    let old = trim_end_string(old_raw);
    let new = trim_start_string(new_raw);
    if old.unicode_len() > 0 && new.unicode_len() > 0 {
        let mut spaced = String::new();
        push_char(&mut spaced, ' ');
        push_str(&mut spaced, new.as_str());
        (old, spaced)
    } else {
        (old, new)
    }
}

/// The committed position, a byte offset into the UTF-8 encoding of the
/// transcript, clamped to the transcript's length in bytes.
pub open spec fn committed_byte_pos(full: Seq<char>, committed: int) -> int {
    let n = encode_utf8(full).len() as int;
    if committed < n { committed } else { n }
}

/// The characters of the transcript before and from byte offset `pos`.
pub open spec fn split_at_byte(full: Seq<char>, pos: int) -> (Seq<char>, Seq<char>) {
    let bytes = encode_utf8(full);
    (decode_utf8(bytes.subrange(0, pos)), decode_utf8(bytes.subrange(pos, bytes.len() as int)))
}

/// The transcript split at the committed byte position (clamped to its
/// length) into the text shown as committed and the text shown as in
/// progress.
pub open spec fn transcript_pair(full: Seq<char>, committed: int) -> (Seq<char>, Seq<char>) {
    let halves = split_at_byte(full, committed_byte_pos(full, committed));
    display_pair(halves.0, halves.1)
}

/// Splitting at a character boundary cuts the transcript in two: the two
/// halves, put back together, are the whole transcript.
pub proof fn lemma_split_at_byte_rejoins(full: Seq<char>, pos: int)
    requires
        is_char_boundary(encode_utf8(full), pos),
    ensures
        split_at_byte(full, pos).0 + split_at_byte(full, pos).1 == full,
{
    broadcast use vstd::utf8::group_utf8_lib;

    let bytes = encode_utf8(full);
    assert(decode_utf8(bytes) == full);
    assert(decode_utf8(bytes) =~= decode_utf8(bytes.subrange(0, pos)) + decode_utf8(
        bytes.subrange(pos, bytes.len() as int),
    ));
}

/// The transcription overlay's text: everything before the committed byte
/// position is old, everything after it is the sentence in progress. The
/// position, clamped to the transcript's length, lies on a character
/// boundary (the transcript is sliced there).
pub fn transcript_texts(full: &str, committed: usize) -> (r: (String, String))
    requires
        encode_utf8(full@).len() <= usize::MAX,
        is_char_boundary(encode_utf8(full@), committed_byte_pos(full@, committed as int)),
    ensures
        (r.0@, r.1@) == transcript_pair(full@, committed as int),
{
    broadcast use vstd::utf8::group_utf8_lib;

    let n = full.len();
    let pos = if committed < n { committed } else { n };
    assert(full.spec_bytes() == encode_utf8(full@));
    assert(pos == committed_byte_pos(full@, committed as int));
    let (old_raw, new_raw) = full.split_at(pos);
    proof {
        assert(old_raw@ == decode_utf8(old_raw.spec_bytes()));
        assert(new_raw@ == decode_utf8(new_raw.spec_bytes()));
    }
    display_texts(old_raw, new_raw)
}

// ---------------------------------------------------------------------
// Scripts sent to the pages
// ---------------------------------------------------------------------

/// The escape of one character inside a single-quoted JavaScript string:
/// backslash and quote are escaped, a line feed becomes `\n`, a carriage
/// return is dropped.
pub open spec fn js_quote_char(c: char) -> Seq<char> {
    if c == '\\' {
        seq!['\\', '\\']
    } else if c == '\'' {
        seq!['\\', '\'']
    } else if c == '\n' {
        seq!['\\', 'n']
    } else if c == '\r' {
        Seq::empty()
    } else {
        seq![c]
    }
}

pub open spec fn js_quote(s: Seq<char>) -> Seq<char>
    decreases s.len(),
{
    if s.len() == 0 {
        Seq::empty()
    } else {
        js_quote(s.drop_last()) + js_quote_char(s.last())
    }
}

/// Quoted text cannot end the string or the line it is written in: it
/// holds no line break, and every apostrophe in it is escaped.
pub proof fn lemma_js_quote_stays_inside_the_string(s: Seq<char>)
    ensures
        forall|i: int|
            0 <= i < js_quote(s).len() ==> #[trigger] js_quote(s)[i] != '\n' && js_quote(s)[i] != '\r',
        forall|i: int|
            0 <= i < js_quote(s).len() && #[trigger] js_quote(s)[i] == '\'' ==> i > 0 && js_quote(s)[i - 1]
                == '\\',
    decreases s.len(),
{
    if s.len() > 0 {
        lemma_js_quote_stays_inside_the_string(s.drop_last());
        let a = js_quote(s.drop_last());
        let b = js_quote_char(s.last());
        assert forall|i: int| 0 <= i < (a + b).len() implies #[trigger] (a + b)[i] != '\n' && (a + b)[i]
            != '\r' by {
            if i >= a.len() {
                assert((a + b)[i] == b[i - a.len()]);
            } else {
                assert((a + b)[i] == a[i]);
            }
        }
        assert forall|i: int| 0 <= i < (a + b).len() && #[trigger] (a + b)[i] == '\'' implies i > 0 && (a
            + b)[i - 1] == '\\' by {
            if i >= a.len() {
                assert((a + b)[i] == b[i - a.len()]);
                assert(s.last() == '\'');
                assert(i == a.len() + 1);
                assert((a + b)[i - 1] == b[0]);
            } else {
                assert((a + b)[i] == a[i]);
                assert((a + b)[i - 1] == a[i - 1]);
            }
        }
    }
}

/// Text made safe inside a single-quoted JavaScript string.
pub fn escape_js(text: &str) -> (r: String)
    ensures
        r@ == js_quote(text@),
{
    let v = to_chars(text);
    let mut out = String::new();
    let mut i: usize = 0;
    while i < v.len()
        invariant
            i <= v@.len(),
            v@ == text@,
            out@ == js_quote(v@.take(i as int)),
        decreases v@.len() - i,
    {
        let c = v[i];
        if c == '\\' {
            push_char(&mut out, '\\');
            push_char(&mut out, '\\');
        } else if c == '\'' {
            push_char(&mut out, '\\');
            push_char(&mut out, '\'');
        } else if c == '\n' {
            push_char(&mut out, '\\');
            push_char(&mut out, 'n');
        } else if c == '\r' {
        } else {
            push_char(&mut out, c);
        }
        proof {
            assert(v@.take(i + 1).drop_last() =~= v@.take(i as int));
            assert(out@ =~= js_quote(v@.take(i as int)) + js_quote_char(c));
        }
        i = i + 1;
    }
    proof {
        assert(v@.take(v@.len() as int) =~= v@);
    }
    out
}

pub open spec fn update_text_js(old: Seq<char>, new: Seq<char>) -> Seq<char> {
    "window.updateText('"@ + js_quote(old) + "', '"@ + js_quote(new) + "');"@
}

/// The script that shows new committed and in-progress text.
pub fn update_text_script(old: &str, new: &str) -> (r: String)
    ensures
        r@ == update_text_js(old@, new@),
{
    let mut s = String::new();
    push_str(&mut s, "window.updateText('");
    let a = escape_js(old);
    push_str(&mut s, a.as_str());
    push_str(&mut s, "', '");
    let b = escape_js(new);
    push_str(&mut s, b.as_str());
    push_str(&mut s, "');");
    s
}

pub open spec fn bool_js(b: bool) -> Seq<char> {
    if b { "true"@ } else { "false"@ }
}

pub open spec fn visibility_js(mic: bool, trans: bool) -> Seq<char> {
    "if(window.setVisibility) window.setVisibility("@ + bool_js(mic) + ", "@ + bool_js(trans)
        + ");"@
}

fn push_bool(s: &mut String, b: bool)
    ensures
        final(s)@ == old(s)@ + bool_js(b),
{
    if b {
        push_str(s, "true");
    } else {
        push_str(s, "false");
    }
}

/// The script that tells both pages which overlays are visible.
pub fn visibility_script(mic_visible: bool, trans_visible: bool) -> (r: String)
    ensures
        r@ == visibility_js(mic_visible, trans_visible),
{
    let mut s = String::new();
    push_str(&mut s, "if(window.setVisibility) window.setVisibility(");
    push_bool(&mut s, mic_visible);
    push_str(&mut s, ", ");
    push_bool(&mut s, trans_visible);
    push_str(&mut s, ");");
    s
}

/// The translation model announced by a model switch: `1` is Gemma, `2`
/// Google's translator, anything else Groq's Llama.
pub open spec fn model_name(code: usize) -> Seq<char> {
    if code == 1 {
        "google-gemma"@
    } else if code == 2 {
        "google-gtx"@
    } else {
        "groq-llama"@
    }
}

pub fn model_switch_name(code: usize) -> (r: &'static str)
    ensures
        r@ == model_name(code),
{
    if code == 1 {
        "google-gemma"
    } else if code == 2 {
        "google-gtx"
    } else {
        "groq-llama"
    }
}

pub open spec fn model_switch_js(code: usize) -> Seq<char> {
    "if(window.switchModel) window.switchModel('"@ + model_name(code) + "');"@
}

/// The script that animates a switch of translation model.
pub fn model_switch_script(code: usize) -> (r: String)
    ensures
        r@ == model_switch_js(code),
{
    let mut s = String::new();
    push_str(&mut s, "if(window.switchModel) window.switchModel('");
    push_str(&mut s, model_switch_name(code));
    push_str(&mut s, "');");
    s
}

pub open spec fn tts_speed_js(speed: u32) -> Seq<char> {
    "if(window.updateTtsSpeed) window.updateTtsSpeed("@ + decimal(speed as nat) + ");"@
}

/// The script that shows the current reading speed (in percent).
pub fn tts_speed_script(speed: u32) -> (r: String)
    ensures
        r@ == tts_speed_js(speed),
{
    let mut s = String::new();
    push_str(&mut s, "if(window.updateTtsSpeed) window.updateTtsSpeed(");
    let d = u64_to_decimal(speed as u64);
    push_str(&mut s, d.as_str());
    push_str(&mut s, ");");
    s
}

// ---------------------------------------------------------------------
// Messages posted by the pages
// ---------------------------------------------------------------------

/// What a message of an overlay page asks for.
pub enum OverlayRequest {
    StartDrag,
    Close,
    SaveResize,
    FontSize(u32),
    AudioSource(String),
    Language(String),
    TranslationModel(String),
    Resize(i32, i32),
    ToggleMic(bool),
    ToggleTrans(bool),
    /// A message that asks for nothing (unknown, or with a malformed
    /// number).
    Ignored,
}

/// [`OverlayRequest`] with its texts as character sequences.
pub enum RequestView {
    StartDrag,
    Close,
    SaveResize,
    FontSize(int),
    AudioSource(Seq<char>),
    Language(Seq<char>),
    TranslationModel(Seq<char>),
    Resize(int, int),
    ToggleMic(bool),
    ToggleTrans(bool),
    Ignored,
}

pub open spec fn request_view(r: OverlayRequest) -> RequestView {
    match r {
        OverlayRequest::StartDrag => RequestView::StartDrag,
        OverlayRequest::Close => RequestView::Close,
        OverlayRequest::SaveResize => RequestView::SaveResize,
        OverlayRequest::FontSize(n) => RequestView::FontSize(n as int),
        OverlayRequest::AudioSource(s) => RequestView::AudioSource(s@),
        OverlayRequest::Language(s) => RequestView::Language(s@),
        OverlayRequest::TranslationModel(s) => RequestView::TranslationModel(s@),
        OverlayRequest::Resize(dx, dy) => RequestView::Resize(dx as int, dy as int),
        OverlayRequest::ToggleMic(b) => RequestView::ToggleMic(b),
        OverlayRequest::ToggleTrans(b) => RequestView::ToggleTrans(b),
        OverlayRequest::Ignored => RequestView::Ignored,
    }
}

/// `i` is the position of the first comma of `s`.
pub open spec fn is_first_comma(s: Seq<char>, i: int) -> bool {
    0 <= i < s.len() && s[i] == ',' && forall|j: int| 0 <= j < i ==> s[j] != ','
}

/// A `dx,dy` pair of `i32` deltas, split at the first comma.
pub open spec fn resize_view(s: Seq<char>) -> RequestView {
    if exists|i: int| is_first_comma(s, i) {
        let i = choose|i: int| is_first_comma(s, i);
        match (parse_signed(s.take(i), i32::MAX as nat), parse_signed(s.skip(i + 1), i32::MAX as nat)) {
            (Some(dx), Some(dy)) => RequestView::Resize(dx, dy),
            _ => RequestView::Ignored,
        }
    } else {
        RequestView::Ignored
    }
}

pub open spec fn spec_overlay_request(body: Seq<char>) -> RequestView {
    if body == "startDrag"@ {
        RequestView::StartDrag
    } else if body == "close"@ {
        RequestView::Close
    } else if body == "saveResize"@ {
        RequestView::SaveResize
    } else if starts_with(body, "fontSize:"@) {
        match parse_unsigned(body.skip("fontSize:"@.len() as int), u32::MAX as nat) {
            Some(n) => RequestView::FontSize(n as int),
            None => RequestView::Ignored,
        }
    } else if starts_with(body, "audioSource:"@) {
        RequestView::AudioSource(body.skip("audioSource:"@.len() as int))
    } else if starts_with(body, "language:"@) {
        RequestView::Language(body.skip("language:"@.len() as int))
    } else if starts_with(body, "translationModel:"@) {
        RequestView::TranslationModel(body.skip("translationModel:"@.len() as int))
    } else if starts_with(body, "resize:"@) {
        resize_view(body.skip("resize:"@.len() as int))
    } else if starts_with(body, "toggleMic:"@) {
        RequestView::ToggleMic(body.skip("toggleMic:"@.len() as int) == "1"@)
    } else if starts_with(body, "toggleTrans:"@) {
        RequestView::ToggleTrans(body.skip("toggleTrans:"@.len() as int) == "1"@)
    } else {
        RequestView::Ignored
    }
}

/// The text after a prefix of `n` characters.
fn rest_after(v: &Vec<char>, n: usize) -> (r: String)
    requires
        n <= v.len(),
    ensures
        r@ == v@.skip(n as int),
{
    let r = chars_to_string_range(v, n, v.len());
    assert(r@ =~= v@.skip(n as int));
    r
}

fn parse_resize(s: &str) -> (r: OverlayRequest)
    ensures
        request_view(r) == resize_view(s@),
{
    let v = to_chars(s);
    let mut i: usize = 0;
    while i < v.len() && v[i] != ','
        invariant
            v@ == s@,
            i <= v.len(),
            forall|j: int| 0 <= j < i ==> s@[j] != ',',
        decreases v.len() - i,
    {
        i = i + 1;
    }
    if i == v.len() {
        assert(!exists|k: int| is_first_comma(s@, k));
        return OverlayRequest::Ignored;
    }
    assert(is_first_comma(s@, i as int));
    let ghost k = choose|k: int| is_first_comma(s@, k);
    assert(k == i) by {
        if k < i {
            assert(s@[k] != ',');
        } else if i < k {
            assert(s@[i as int] != ',');
        }
    }
    let a = chars_to_string_range(&v, 0, i);
    let b = chars_to_string_range(&v, i + 1, v.len());
    assert(a@ =~= s@.take(i as int));
    assert(b@ =~= s@.skip(i + 1));
    match (parse_i32(a.as_str()), parse_i32(b.as_str())) {
        (Some(dx), Some(dy)) => OverlayRequest::Resize(dx, dy),
        _ => OverlayRequest::Ignored,
    }
}

/// What a message of an overlay page asks for.
pub fn overlay_request(body: &str) -> (r: OverlayRequest)
    ensures
        request_view(r) == spec_overlay_request(body@),
{
    proof {
        reveal_strlit("fontSize:");
        reveal_strlit("audioSource:");
        reveal_strlit("language:");
        reveal_strlit("translationModel:");
        reveal_strlit("resize:");
        reveal_strlit("toggleMic:");
        reveal_strlit("toggleTrans:");
    }
    let v = to_chars(body);
    if str_eq(body, "startDrag") {
        OverlayRequest::StartDrag
    } else if str_eq(body, "close") {
        OverlayRequest::Close
    } else if str_eq(body, "saveResize") {
        OverlayRequest::SaveResize
    } else if starts_with_chars(&v, "fontSize:") {
        let rest = rest_after(&v, 9);
        match parse_u32(rest.as_str()) {
            Some(n) => OverlayRequest::FontSize(n),
            None => OverlayRequest::Ignored,
        }
    } else if starts_with_chars(&v, "audioSource:") {
        OverlayRequest::AudioSource(rest_after(&v, 12))
    } else if starts_with_chars(&v, "language:") {
        OverlayRequest::Language(rest_after(&v, 9))
    } else if starts_with_chars(&v, "translationModel:") {
        OverlayRequest::TranslationModel(rest_after(&v, 17))
    } else if starts_with_chars(&v, "resize:") {
        let rest = rest_after(&v, 7);
        parse_resize(rest.as_str())
    } else if starts_with_chars(&v, "toggleMic:") {
        let rest = rest_after(&v, 10);
        OverlayRequest::ToggleMic(str_eq(rest.as_str(), "1"))
    } else if starts_with_chars(&v, "toggleTrans:") {
        let rest = rest_after(&v, 12);
        OverlayRequest::ToggleTrans(str_eq(rest.as_str(), "1"))
    } else {
        OverlayRequest::Ignored
    }
}

// ---------------------------------------------------------------------
// Size, visibility and placement of the overlays
// ---------------------------------------------------------------------

/// Smallest width an overlay can be resized to.
pub const MIN_RESIZE_WIDTH: i32 = 200;

/// Smallest height an overlay can be resized to.
pub const MIN_RESIZE_HEIGHT: i32 = 100;

/// New size of an overlay of `width` x `height` dragged by `dx`, `dy`,
/// never below the smallest size.
pub fn resized_extent(width: i32, height: i32, dx: i32, dy: i32) -> (r: (i32, i32))
    requires
        i32::MIN <= width + dx <= i32::MAX,
        i32::MIN <= height + dy <= i32::MAX,
    ensures
        r.0 == max_int(width + dx, MIN_RESIZE_WIDTH as int),
        r.1 == max_int(height + dy, MIN_RESIZE_HEIGHT as int),
{
    let w = width + dx;
    let h = height + dy;
    (if w > MIN_RESIZE_WIDTH { w } else { MIN_RESIZE_WIDTH }, if h > MIN_RESIZE_HEIGHT {
        h
    } else {
        MIN_RESIZE_HEIGHT
    })
}

/// One of the two overlays.
#[derive(Clone, Copy, Debug, PartialEq, Eq, Structural)]
pub enum Panel {
    Transcription,
    Translation,
}

/// Which overlays are shown.
#[derive(Clone, Copy, Debug, PartialEq, Eq, Structural)]
pub struct Visibility {
    pub mic: bool,
    pub trans: bool,
}

/// What follows a change of visibility.
#[derive(Clone, Copy, Debug, PartialEq, Eq, Structural)]
pub enum ToggleOutcome {
    /// Both overlays are hidden: transcription stops and the overlays close.
    StopAll,
    /// The overlay was shown again: its text is refreshed.
    Refresh,
    Nothing,
}

pub open spec fn toggled(v: Visibility, panel: Panel, visible: bool) -> Visibility {
    match panel {
        Panel::Transcription => Visibility { mic: visible, trans: v.trans },
        Panel::Translation => Visibility { mic: v.mic, trans: visible },
    }
}

/// Shows or hides one overlay; everything stops once both are hidden.
pub fn toggle_panel(v: Visibility, panel: Panel, visible: bool) -> (r: (Visibility, ToggleOutcome))
    ensures
        r.0 == toggled(v, panel, visible),
        (r.1 == ToggleOutcome::StopAll) == (!r.0.mic && !r.0.trans),
        (r.1 == ToggleOutcome::Refresh) == ((r.0.mic || r.0.trans) && visible),
{
    let n = match panel {
        Panel::Transcription => Visibility { mic: visible, trans: v.trans },
        Panel::Translation => Visibility { mic: v.mic, trans: visible },
    };
    let outcome = if !n.mic && !n.trans {
        ToggleOutcome::StopAll
    } else if visible {
        ToggleOutcome::Refresh
    } else {
        ToggleOutcome::Nothing
    };
    (n, outcome)
}

/// The language settings of a preset's translation step.
pub struct BlockLanguage {
    pub selected_language: String,
    /// The step's `language` variable, where it has one.
    pub language_var: Option<String>,
    /// The step's `language1` variable, where it has one.
    pub language1_var: Option<String>,
}

pub open spec fn opt_view(o: Option<String>) -> Option<Seq<char>> {
    match o {
        Some(s) => Some(s@),
        None => None,
    }
}

/// The language the translation overlay starts with: the saved one, else
/// the translation step's, else Vietnamese.
pub open spec fn spec_target_language(
    saved: Seq<char>,
    selected: Option<Seq<char>>,
    language_var: Option<Seq<char>>,
    language1_var: Option<Seq<char>>,
) -> Seq<char> {
    if saved.len() > 0 {
        saved
    } else {
        match selected {
            Some(sel) => if sel.len() > 0 {
                sel
            } else {
                match language_var {
                    Some(l) => l,
                    None => match language1_var {
                        Some(l) => l,
                        None => "Vietnamese"@,
                    },
                }
            },
            None => "Vietnamese"@,
        }
    }
}

/// The starting target language; `block` is the preset's translation step
/// where it has one.
pub fn target_language(saved: &str, block: Option<&BlockLanguage>) -> (r: String)
    ensures
        r@ == (match block {
            Some(b) => spec_target_language(
                saved@,
                Some(b.selected_language@),
                opt_view(b.language_var),
                opt_view(b.language1_var),
            ),
            None => spec_target_language(saved@, None, None, None),
        }),
{
    if saved.unicode_len() > 0 {
        return owned(saved);
    }
    match block {
        Some(b) => {
            if b.selected_language.unicode_len() > 0 {
                owned(b.selected_language.as_str())
            } else {
                match &b.language_var {
                    Some(l) => owned(l.as_str()),
                    None => match &b.language1_var {
                        Some(l) => owned(l.as_str()),
                        None => owned("Vietnamese"),
                    },
                }
            }
        },
        None => owned("Vietnamese"),
    }
}

/// The audio source the transcription uses: the saved one where there is
/// one, else the preset's.
pub fn effective_audio_source(saved: &str, preset: &str) -> (r: String)
    ensures
        r@ == (if saved@.len() > 0 { saved@ } else { preset@ }),
{
    if saved.unicode_len() > 0 {
        owned(saved)
    } else {
        owned(preset)
    }
}

/// Where the overlays open: centred on the screen, the translation overlay
/// (where there is one) to the right of the transcription overlay, `GAP`
/// pixels apart, both at the same height.
pub fn realtime_placement(
    screen_w: i32,
    screen_h: i32,
    main_w: i32,
    main_h: i32,
    trans_w: i32,
    has_translation: bool,
) -> (r: (i32, i32, Option<i32>))
    requires
        coord_ok(screen_w as int),
        coord_ok(screen_h as int),
        coord_ok(main_w as int),
        coord_ok(main_h as int),
        coord_ok(trans_w as int),
    ensures
        r.1 == div2_trunc(screen_h - main_h),
        has_translation ==> r.0 == div2_trunc(screen_w - (main_w + trans_w + GAP)) && r.2 == Some(
            (r.0 + main_w + GAP) as i32,
        ),
        !has_translation ==> r.0 == div2_trunc(screen_w - main_w) && r.2 is None,
{
    let y = (screen_h - main_h) / 2;
    if has_translation {
        let total = main_w + trans_w + GAP;
        let x = (screen_w - total) / 2;
        (x, y, Some(x + main_w + GAP))
    } else {
        ((screen_w - main_w) / 2, y, None)
    }
}

// ---------------------------------------------------------------------
// Reading committed translation aloud
// ---------------------------------------------------------------------

/// Whether reading aloud is safe: always with the microphone; with system
/// audio only when a single application's audio is captured, so that the
/// voice is not transcribed again.
pub open spec fn spec_tts_allowed(audio_source: Seq<char>, app_selected: bool) -> bool {
    audio_source.len() == 0 || audio_source == "mic"@ || app_selected
}

pub fn tts_allowed(audio_source: &str, app_selected: bool) -> (r: bool)
    ensures
        r == spec_tts_allowed(audio_source@, app_selected),
{
    audio_source.unicode_len() == 0 || str_eq(audio_source, "mic") || app_selected
}

/// A byte of a sentence end: `.`, `?`, `!` or a line feed. These are
/// ASCII characters, whose one-byte encodings occur in UTF-8 text only as
/// those characters.
pub open spec fn is_sentence_end_byte(x: u8) -> bool {
    x == 0x2E || x == 0x3F || x == 0x21 || x == 0x0A
}

/// The last byte offset before `limit` that holds a sentence end.
pub open spec fn last_sentence_end(t: Seq<u8>, limit: int) -> Option<int>
    decreases limit,
{
    if limit <= 0 {
        None
    } else if is_sentence_end_byte(t[limit - 1]) {
        Some(limit - 1)
    } else {
        last_sentence_end(t, limit - 1)
    }
}

/// Where reading resumes, as a byte offset into the text. Starting afresh
/// in a text of more than fifty bytes, reading skips to the last sentence:
/// everything up to the last sentence end before the final byte of the
/// text without its trailing whitespace counts as read.
pub open spec fn resume_position(text: Seq<char>, spoken: nat) -> nat {
    if spoken == 0 && encode_utf8(text).len() > 50 {
        let t = encode_utf8(trim_end(text));
        let limit = if t.len() > 0 { t.len() - 1 } else { 0 };
        if limit > 0 {
            match last_sentence_end(t, limit) {
                Some(i) => (i + 1) as nat,
                None => spoken,
            }
        } else {
            spoken
        }
    } else {
        spoken
    }
}

/// The inputs on which the text can be cut where reading looks: the
/// search for the last sentence ends at a character boundary of the
/// trimmed text, and a given read position is a character boundary.
pub open spec fn tts_cuts_ok(enabled: bool, allowed: bool, text: Seq<char>, spoken: nat) -> bool {
    let n = encode_utf8(text).len();
    let t = encode_utf8(trim_end(text));
    enabled && allowed && text.len() > 0 ==> {
        &&& (spoken == 0 && n > 50 && t.len() > 1 ==> is_char_boundary(t, t.len() - 1))
        &&& (spoken < n ==> is_char_boundary(encode_utf8(text), spoken as int))
    }
}

/// The outcome of new committed translation `text` when `spoken` bytes of
/// it were read: how many bytes count as read afterwards, and what is read
/// now.
pub open spec fn spec_tts_step(
    enabled: bool,
    allowed: bool,
    text: Seq<char>,
    spoken: nat,
) -> (nat, Option<Seq<char>>) {
    if enabled && allowed && text.len() > 0 {
        let start = resume_position(text, spoken);
        let n = encode_utf8(text).len();
        if n > start {
            let segment = split_at_byte(text, start as int).1;
            (n, if is_blank(segment) { None } else { Some(segment) })
        } else {
            (start, None)
        }
    } else {
        (spoken, None)
    }
}

/// How much counts as read, and what to read now.
pub struct TtsStep {
    pub spoken: usize,
    pub speak: Option<String>,
}

proof fn lemma_encode_utf8_concat(a: Seq<char>, b: Seq<char>)
    ensures
        encode_utf8(a + b) == encode_utf8(a) + encode_utf8(b),
    decreases a.len(),
{
    if a.len() == 0 {
        assert(a + b =~= b);
        assert(encode_utf8(a) + encode_utf8(b) =~= encode_utf8(b));
    } else {
        assert((a + b).drop_first() =~= a.drop_first() + b);
        assert((a + b)[0] == a[0]);
        lemma_encode_utf8_concat(a.drop_first(), b);
        assert(encode_utf8(a + b) =~= encode_utf8(a) + encode_utf8(b));
    }
}

proof fn lemma_encode_utf8_nonempty(a: Seq<char>)
    requires
        a.len() > 0,
    ensures
        encode_utf8(a).len() > 0,
{
    assert(encode_scalar(a[0] as u32).len() > 0);
}

/// In valid UTF-8, the offset right after a one-byte character is a
/// character boundary.
proof fn lemma_boundary_after_ascii(bytes: Seq<u8>, idx: int)
    requires
        valid_utf8(bytes),
        0 <= idx < bytes.len(),
        bytes[idx] < 0x80,
    ensures
        is_char_boundary(bytes, idx + 1),
    decreases bytes.len(),
{
    let l = length_of_first_scalar(bytes);
    let rest = pop_first_scalar(bytes);
    assert(valid_utf8(rest));
    if idx == 0 {
        assert(l == 1);
        assert(is_char_boundary(rest, 0));
    } else if idx < l {
        assert(is_continuation_byte(bytes[idx]));
        assert(false);
    } else {
        assert(rest[idx - l] == bytes[idx]);
        lemma_boundary_after_ascii(rest, idx - l);
    }
}

fn last_sentence_end_exec(t: &[u8], limit: usize) -> (r: Option<usize>)
    requires
        limit <= t@.len(),
    ensures
        match r {
            Some(i) => last_sentence_end(t@, limit as int) == Some(i as int),
            None => last_sentence_end(t@, limit as int) is None,
        },
        r matches Some(i) ==> i < limit,
{
    let mut i = limit;
    while i > 0 && !(t[i - 1] == 0x2E || t[i - 1] == 0x3F || t[i - 1] == 0x21 || t[i - 1] == 0x0A)
        invariant
            i <= limit <= t@.len(),
            last_sentence_end(t@, limit as int) == last_sentence_end(t@, i as int),
        decreases i,
    {
        i = i - 1;
    }
    if i == 0 {
        None
    } else {
        Some(i - 1)
    }
}

proof fn lemma_last_sentence_end_bound(t: Seq<u8>, limit: int)
    ensures
        last_sentence_end(t, limit) matches Some(i) ==> 0 <= i < limit && is_sentence_end_byte(t[i]),
    decreases limit,
{
    if limit > 0 && !is_sentence_end_byte(t[limit - 1]) {
        lemma_last_sentence_end_bound(t, limit - 1);
    }
}

/// Where reading resumes is a character boundary of the text, whenever
/// some of it is left to read.
proof fn lemma_resume_on_boundary(enabled: bool, allowed: bool, text: Seq<char>, spoken: nat)
    requires
        enabled && allowed && text.len() > 0,
        tts_cuts_ok(enabled, allowed, text, spoken),
    ensures
        resume_position(text, spoken) < encode_utf8(text).len() ==> is_char_boundary(
            encode_utf8(text),
            resume_position(text, spoken) as int,
        ),
{
    broadcast use vstd::utf8::group_utf8_lib;

    let b = encode_utf8(text);
    let tr = trim_end(text);
    let t = encode_utf8(tr);
    if resume_position(text, spoken) != spoken {
        let limit = t.len() - 1;
        lemma_last_sentence_end_bound(t, limit);
        let i = last_sentence_end(t, limit)->0;
        lemma_trailing_ws_bound(text);
        let k = text.len() - trailing_ws(text);
        assert(text =~= tr + text.skip(k));
        lemma_encode_utf8_concat(tr, text.skip(k));
        assert(b[i] == t[i]);
        lemma_boundary_after_ascii(b, i);
    }
}

/// New committed translation `text` is read aloud from where reading
/// stopped, when reading is on and allowed. Positions are byte offsets
/// into the text; the text is cut only at character boundaries.
pub fn tts_step(enabled: bool, allowed: bool, text: &str, spoken: usize) -> (r: TtsStep)
    requires
        encode_utf8(text@).len() <= usize::MAX,
        tts_cuts_ok(enabled, allowed, text@, spoken as nat),
    ensures
        r.spoken as nat == spec_tts_step(enabled, allowed, text@, spoken as nat).0,
        opt_view(r.speak) == spec_tts_step(enabled, allowed, text@, spoken as nat).1,
{
    if !(enabled && allowed && !text.is_empty()) {
        return TtsStep { spoken, speak: None };
    }
    let n = text.len();
    assert(n == encode_utf8(text@).len());
    let mut start = spoken;
    if spoken == 0 && n > 50 {
        let t = trim_end_string(text);
        let tb = t.as_str().as_bytes();
        let tl = tb.len();
        let limit = if tl > 0 { tl - 1 } else { 0 };
        if limit > 0 {
            match last_sentence_end_exec(tb, limit) {
                Some(i) => {
                    start = i + 1;
                },
                None => {},
            }
        }
    }
    assert(start as nat == resume_position(text@, spoken as nat));
    proof {
        lemma_resume_on_boundary(enabled, allowed, text@, spoken as nat);
    }
    if n > start {
        assert(text.spec_bytes() == encode_utf8(text@));
        let (_, rest) = text.split_at(start);
        proof {
            broadcast use vstd::utf8::group_utf8_lib;

            assert(rest@ == decode_utf8(rest.spec_bytes()));
        }
        let segment = owned(rest);
        let blank = is_blank_str(rest);
        TtsStep { spoken: n, speak: if blank { None } else { Some(segment) } }
    } else {
        TtsStep { spoken: start, speak: None }
    }
}

/// Reading is never repeated: right after a step, the same text gives
/// nothing more to read.
pub proof fn lemma_tts_step_reads_once(enabled: bool, allowed: bool, text: Seq<char>, spoken: nat)
    ensures
        spec_tts_step(enabled, allowed, text, spec_tts_step(enabled, allowed, text, spoken).0).1
            is None,
{
    let first = spec_tts_step(enabled, allowed, text, spoken).0;
    if enabled && allowed && text.len() > 0 {
        lemma_encode_utf8_nonempty(text);
        let start = resume_position(text, spoken);
        if encode_utf8(text).len() > start {
            assert(first == encode_utf8(text).len());
            assert(resume_position(text, first) == first);
        } else {
            if start == 0 {
                assert(false);
            }
            assert(resume_position(text, first) == first);
        }
    }
}

/// What is read is exactly the unread end of the committed text, and
/// afterwards all of the text counts as read.
pub proof fn lemma_tts_reads_suffix(enabled: bool, allowed: bool, text: Seq<char>, spoken: nat)
    requires
        tts_cuts_ok(enabled, allowed, text, spoken),
    ensures
        spec_tts_step(enabled, allowed, text, spoken).1 matches Some(seg) ==> (seg.len() > 0
            && text.skip(text.len() - seg.len()) == seg && spec_tts_step(
            enabled,
            allowed,
            text,
            spoken,
        ).0 == encode_utf8(text).len()),
{
    if spec_tts_step(enabled, allowed, text, spoken).1 is Some {
        let start = resume_position(text, spoken);
        lemma_resume_on_boundary(enabled, allowed, text, spoken);
        lemma_split_at_byte_rejoins(text, start as int);
        let halves = split_at_byte(text, start as int);
        assert(text.skip(text.len() - halves.1.len()) =~= halves.1);
    }
}

// ---------------------------------------------------------------------
// Controls of the overlay pages
// ---------------------------------------------------------------------

#[verifier::external_type_specification]
#[verifier::external_body]
pub struct ExLanguage(isolang::Language);

/// The ISO 639 language whose English name is `name`, where there is one.
pub uninterp spec fn language_by_name(name: Seq<char>) -> Option<isolang::Language>;

/// The two-letter ISO 639-1 code of a language, where it has one.
pub uninterp spec fn iso_639_1(lang: isolang::Language) -> Option<Seq<char>>;

/// A text in upper case, as std's `str::to_uppercase` gives it.
pub uninterp spec fn upper_case(s: Seq<char>) -> Seq<char>;

/// `isolang::Language::from_name`: a lookup of the English name in the
/// crate's fixed table. The contract names the result and says nothing
/// more.
#[verifier::external_body]
fn language_from_name(name: &str) -> (r: Option<isolang::Language>)
    ensures
        r == language_by_name(name@),
{
    isolang::Language::from_name(name)
}

/// `isolang::Language::to_639_1`: the language's entry in the crate's
/// fixed table of two-letter codes. The contract names the result and says
/// nothing more.
#[verifier::external_body]
fn language_code_639_1(lang: isolang::Language) -> (r: Option<&'static str>)
    ensures
        match r {
            Some(c) => iso_639_1(lang) == Some(c@),
            None => iso_639_1(lang) is None,
        },
{
    lang.to_639_1()
}

/// std's `str::to_uppercase`. The contract names the result and says
/// nothing more.
#[verifier::external_body]
fn to_uppercase(s: &str) -> (r: String)
    ensures
        r@ == upper_case(s@),
{
    s.to_uppercase()
}

/// At most the first two characters.
pub open spec fn first_two(s: Seq<char>) -> Seq<char> {
    if s.len() <= 2 { s } else { s.take(2) }
}

/// The short label of a language: its ISO 639-1 code in upper case, else
/// the first two characters of its name in upper case.
pub open spec fn code_label_of(name: Seq<char>, code: Option<Seq<char>>) -> Seq<char> {
    match code {
        Some(c) => upper_case(c),
        None => upper_case(first_two(name)),
    }
}

/// The ISO 639-1 code of the language named `name`, where it has one.
pub open spec fn code_of_name(name: Seq<char>) -> Option<Seq<char>> {
    match language_by_name(name) {
        Some(l) => iso_639_1(l),
        None => None,
    }
}

pub open spec fn spec_language_label(name: Seq<char>) -> Seq<char> {
    code_label_of(name, code_of_name(name))
}

/// The short label of the language `name`, given its ISO 639-1 code where
/// it has one.
pub fn code_label(name: &str, code: Option<&str>) -> (r: String)
    ensures
        r@ == code_label_of(name@, match code {
            Some(c) => Some(c@),
            None => None,
        }),
{
    match code {
        Some(c) => to_uppercase(c),
        None => {
            let v = to_chars(name);
            let n = if v.len() <= 2 { v.len() } else { 2 };
            let head = chars_to_string_range(&v, 0, n);
            assert(head@ =~= first_two(name@));
            to_uppercase(head.as_str())
        },
    }
}

/// The short label shown for the language `name`.
pub fn language_label(name: &str) -> (r: String)
    ensures
        r@ == spec_language_label(name@),
{
    let code = match language_from_name(name) {
        Some(l) => language_code_639_1(l),
        None => None,
    };
    code_label(name, code)
}

pub open spec fn option_html(lang: Seq<char>, label: Seq<char>, selected: bool) -> Seq<char> {
    "<option value=\""@ + lang + "\" data-code=\""@ + label + "\" "@ + (if selected {
        "selected"@
    } else {
        ""@
    }) + ">"@ + lang + "</option>"@
}

/// The options of the first `n` languages, one per line.
pub open spec fn options_html(langs: Seq<Seq<char>>, current: Seq<char>, n: int) -> Seq<char>
    decreases n,
{
    if n <= 0 {
        Seq::empty()
    } else if n == 1 {
        option_html(langs[0], spec_language_label(langs[0]), langs[0] == current)
    } else {
        options_html(langs, current, n - 1) + "\n"@ + option_html(
            langs[n - 1],
            spec_language_label(langs[n - 1]),
            langs[n - 1] == current,
        )
    }
}

pub open spec fn string_views(v: Seq<String>) -> Seq<Seq<char>> {
    v.map_values(|s: String| s@)
}

fn push_option(out: &mut String, lang: &str, current: &str)
    ensures
        final(out)@ == old(out)@ + option_html(lang@, spec_language_label(lang@), lang@ == current@),
{
    push_str(out, "<option value=\"");
    push_str(out, lang);
    push_str(out, "\" data-code=\"");
    let label = language_label(lang);
    push_str(out, label.as_str());
    push_str(out, "\" ");
    if str_eq(lang, current) {
        push_str(out, "selected");
    } else {
        push_str(out, "");
    }
    push_str(out, ">");
    push_str(out, lang);
    push_str(out, "</option>");
}

/// The language list of the translation overlay, with the current
/// language selected.
pub fn language_options_html(languages: &Vec<String>, current: &str) -> (r: String)
    ensures
        r@ == options_html(string_views(languages@), current@, languages@.len() as int),
{
    let ghost langs = string_views(languages@);
    let mut out = String::new();
    let mut i: usize = 0;
    while i < languages.len()
        invariant
            i <= languages.len(),
            langs == string_views(languages@),
            out@ == options_html(langs, current@, i as int),
        decreases languages.len() - i,
    {
        if i > 0 {
            push_str(&mut out, "\n");
        }
        push_option(&mut out, languages[i].as_str(), current);
        i = i + 1;
    }
    out
}

/// Pieces of the audio source switch of the transcription overlay.
pub const AUDIO_OPEN: &'static str = "\n            <div class=\"btn-group\">\n                <span class=\"material-symbols-rounded audio-icon ";
pub const AUDIO_MIC_END: &'static str = "\" id=\"audio-toggle\" data-value=\"mic\" title=\"Microphone\">mic</span>\n                <span class=\"material-symbols-rounded audio-icon ";
pub const AUDIO_DEVICE_END: &'static str = "\" data-value=\"device\" title=\"System Audio\">speaker_group</span>\n            </div>\n        ";
/// Pieces of the model switch and language list of the translation
/// overlay.
pub const MODEL_OPEN: &'static str = "\n            <div class=\"btn-group\">\n                <span class=\"material-symbols-rounded model-icon ";
pub const MODEL_GEMMA_END: &'static str = "\" data-value=\"google-gemma\" title=\"AI Translation (Gemma)\">auto_awesome</span>\n                <span class=\"material-symbols-rounded model-icon ";
pub const MODEL_GROQ_END: &'static str = "\" data-value=\"groq-llama\" title=\"Fast Translation (Groq)\">speed</span>\n                <span class=\"material-symbols-rounded model-icon ";
pub const MODEL_GTX_END: &'static str = "\" data-value=\"google-gtx\" title=\"Unlimited Translation (Google)\">language</span>\n            </div>\n            <select id=\"language-select\" title=\"Target Language\">\n                ";
pub const MODEL_OPTIONS_END: &'static str = "\n            </select>\n        ";

pub open spec fn active_class(on: bool) -> Seq<char> {
    if on { "active"@ } else { ""@ }
}

fn push_active(out: &mut String, on: bool)
    ensures
        final(out)@ == old(out)@ + active_class(on),
{
    if on {
        push_str(out, "active");
    } else {
        push_str(out, "");
    }
}

/// The controls of an overlay's header: the audio source switch of the
/// transcription overlay, or the model switch and language list of the
/// translation overlay.
pub open spec fn spec_panel_controls(
    is_translation: bool,
    audio_source: Seq<char>,
    translation_model: Seq<char>,
    options: Seq<char>,
) -> Seq<char> {
    if !is_translation {
        let device = audio_source == "device"@;
        AUDIO_OPEN@ + active_class(!device) + AUDIO_MIC_END@ + active_class(device)
            + AUDIO_DEVICE_END@
    } else {
        MODEL_OPEN@ + active_class(translation_model == "google-gemma"@) + MODEL_GEMMA_END@
            + active_class(translation_model == "groq-llama"@) + MODEL_GROQ_END@ + active_class(
            translation_model == "google-gtx"@,
        ) + MODEL_GTX_END@ + options + MODEL_OPTIONS_END@
    }
}

pub fn panel_controls(
    is_translation: bool,
    audio_source: &str,
    translation_model: &str,
    languages: &Vec<String>,
    current_language: &str,
) -> (r: String)
    ensures
        r@ == spec_panel_controls(
            is_translation,
            audio_source@,
            translation_model@,
            options_html(string_views(languages@), current_language@, languages@.len() as int),
        ),
{
    let mut out = String::new();
    if !is_translation {
        let device = str_eq(audio_source, "device");
        push_str(&mut out, AUDIO_OPEN);
        push_active(&mut out, !device);
        push_str(&mut out, AUDIO_MIC_END);
        push_active(&mut out, device);
        push_str(&mut out, AUDIO_DEVICE_END);
    } else {
        let options = language_options_html(languages, current_language);
        push_str(&mut out, MODEL_OPEN);
        push_active(&mut out, str_eq(translation_model, "google-gemma"));
        push_str(&mut out, MODEL_GEMMA_END);
        push_active(&mut out, str_eq(translation_model, "groq-llama"));
        push_str(&mut out, MODEL_GROQ_END);
        push_active(&mut out, str_eq(translation_model, "google-gtx"));
        push_str(&mut out, MODEL_GTX_END);
        push_str(&mut out, options.as_str());
        push_str(&mut out, MODEL_OPTIONS_END);
    }
    out
}

/// One bar of the transcription overlay's volume meter.
pub const VOLUME_BAR: &'static str = "<div class=\"volume-bar\" style=\"height: 3px;\"></div>";

/// Number of bars of the volume meter.
pub const VOLUME_BARS: usize = 30;

pub open spec fn repeated(s: Seq<char>, n: nat) -> Seq<char>
    decreases n,
{
    if n == 0 { Seq::empty() } else { repeated(s, (n - 1) as nat) + s }
}

/// The title of an overlay's header: the translation overlay's title text,
/// or the transcription overlay's volume meter.
pub open spec fn spec_title_content(is_translation: bool, title_text: Seq<char>) -> Seq<char> {
    if is_translation {
        title_text
    } else {
        "<div class=\"volume-bars\" id=\"volume-bars\">"@ + repeated(VOLUME_BAR@, VOLUME_BARS as nat)
            + "</div>"@
    }
}

pub fn title_content(is_translation: bool, title_text: &str) -> (r: String)
    ensures
        r@ == spec_title_content(is_translation, title_text@),
{
    if is_translation {
        return owned(title_text);
    }
    let mut out = String::new();
    push_str(&mut out, "<div class=\"volume-bars\" id=\"volume-bars\">");
    let ghost start = out@;
    let mut i: usize = 0;
    while i < VOLUME_BARS
        invariant
            i <= VOLUME_BARS,
            out@ == start + repeated(VOLUME_BAR@, i as nat),
        decreases VOLUME_BARS - i,
    {
        push_str(&mut out, VOLUME_BAR);
        i = i + 1;
        assert(out@ =~= start + repeated(VOLUME_BAR@, i as nat));
    }
    push_str(&mut out, "</div>");
    out
}

/// The accent colour of an overlay: orange for translation, cyan for
/// transcription.
pub fn glow_color(is_translation: bool) -> (r: &'static str)
    ensures
        r@ == (if is_translation { "#ff9633"@ } else { "#00c8ff"@ }),
{
    if is_translation {
        "#ff9633"
    } else {
        "#00c8ff"
    }
}

} // verus!
