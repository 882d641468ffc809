//! The screen recorder's decisions: monitor descriptions, the commands and
//! messages of its page, recording hotkeys, asset routing, window hit
//! testing, and the byte ranges served to the video player.

use vstd::prelude::*;
use crate::ipc::{
    has_json_field, json_args_str, json_args_str_list, json_args_u64, json_field_present, json_str_field,
    json_string_field, read_args_str, read_args_str_list, read_args_u64,
};
use crate::layout::{coord_ok, div2_trunc, rect_ok, Rect};
use crate::numbers::{
    decimal, parse_u32, parse_u64, parse_unsigned, parse_usize, u64_to_decimal, usize_to_decimal,
};
use crate::text::{
    ends_with, ends_with_str, find_first, first_match_from, owned, push_str, starts_with,
    starts_with_str, str_eq, to_chars, upper_ascii, to_upper_ascii, push_char,
};

verus! {

// ---------------------------------------------------------------------
// Monitors
// ---------------------------------------------------------------------

/// A display the recorder can capture.
pub struct MonitorInfo {
    /// Position in the enumeration, in decimal.
    pub id: String,
    pub name: String,
    pub x: i32,
    pub y: i32,
    pub width: u32,
    pub height: u32,
    pub is_primary: bool,
}

/// A difference of two `i32` coordinates reinterpreted as `u32`.
pub open spec fn as_u32_wrapping(d: int) -> int {
    if d >= 0 { d } else { d + 0x1_0000_0000 }
}

/// The description of the `index`-th display, whose rectangle is `rect`
/// and whose monitor flags are `flags` (bit 0: primary).
pub open spec fn spec_monitor_info(index: nat, rect: Rect, flags: u32) -> (Seq<char>, Seq<char>, i32, i32, int, int, bool) {
    (
        decimal(index),
        "Display "@ + decimal(index + 1),
        rect.left,
        rect.top,
        as_u32_wrapping(rect.right - rect.left),
        as_u32_wrapping(rect.bottom - rect.top),
        flags % 2 == 1,
    )
}

pub open spec fn monitor_fits(rect: Rect) -> bool {
    i32::MIN <= rect.right - rect.left <= i32::MAX && i32::MIN <= rect.bottom - rect.top <= i32::MAX
}

pub open spec fn monitor_view(m: MonitorInfo) -> (Seq<char>, Seq<char>, i32, i32, int, int, bool) {
    (m.id@, m.name@, m.x, m.y, m.width as int, m.height as int, m.is_primary)
}

fn span_as_u32(d: i32) -> (r: u32)
    ensures
        r == as_u32_wrapping(d as int),
{
    if d >= 0 {
        d as u32
    } else {
        let m = (d as i64) + 0x1_0000_0000i64;
        m as u32
    }
}

/// The description of the `index`-th display (see [`spec_monitor_info`]).
pub fn monitor_info(index: usize, rect: Rect, flags: u32) -> (m: MonitorInfo)
    requires
        index < usize::MAX,
        monitor_fits(rect),
    ensures
        monitor_view(m) == spec_monitor_info(index as nat, rect, flags),
{
    let id = usize_to_decimal(index);
    let mut name = owned("Display ");
    let number = usize_to_decimal(index + 1);
    name.append(number.as_str());
    let is_primary = flags & 1 == 1;
    assert(is_primary == (flags % 2 == 1)) by (bit_vector)
        requires
            is_primary == (flags & 1 == 1),
    ;
    MonitorInfo {
        id,
        name,
        x: rect.left,
        y: rect.top,
        width: span_as_u32(rect.right - rect.left),
        height: span_as_u32(rect.bottom - rect.top),
        is_primary,
    }
}

/// The displays, from the enumeration of monitors: for each monitor its
/// rectangle and flags, or `None` when they could not be read (it is then
/// left out, but still counts for the numbering).
pub fn get_monitors(found: &Vec<Option<(Rect, u32)>>) -> (ms: Vec<MonitorInfo>)
    requires
        found@.len() < usize::MAX,
        forall|i: int| 0 <= i < found@.len() ==> (#[trigger] found@[i] matches Some(p) ==> monitor_fits(p.0)),
    ensures
        ms@.map_values(|m: MonitorInfo| monitor_view(m)) == listed_monitors(found@, found@.len() as int),
{
    let mut ms: Vec<MonitorInfo> = Vec::new();
    let mut i: usize = 0;
    while i < found.len()
        invariant
            i <= found@.len(),
            found@.len() < usize::MAX,
            forall|k: int| 0 <= k < found@.len() ==> (#[trigger] found@[k] matches Some(p) ==> monitor_fits(p.0)),
            ms@.map_values(|m: MonitorInfo| monitor_view(m)) == listed_monitors(found@, i as int),
        decreases found@.len() - i,
    {
        let ghost before = ms@;
        match &found[i] {
            Some(p) => {
                let m = monitor_info(i, p.0, p.1);
                ms.push(m);
                proof {
                    assert(ms@.map_values(|m: MonitorInfo| monitor_view(m)) =~= before.map_values(
                        |m: MonitorInfo| monitor_view(m),
                    ).push(spec_monitor_info(i as nat, p.0, p.1)));
                }
            },
            None => {},
        }
        i = i + 1;
    }
    ms
}

/// The descriptions of the readable monitors among the first `n`.
pub open spec fn listed_monitors(found: Seq<Option<(Rect, u32)>>, n: int) -> Seq<(Seq<char>, Seq<char>, i32, i32, int, int, bool)>
    decreases n,
{
    if n <= 0 {
        Seq::empty()
    } else {
        let before = listed_monitors(found, n - 1);
        match found[n - 1] {
            Some(p) => before.push(spec_monitor_info((n - 1) as nat, p.0, p.1)),
            None => before,
        }
    }
}

/// The capture monitor chosen by the page: the index in `monitor_id`, or
/// the first monitor when it is missing or not a number.
pub fn monitor_index_of(monitor_id: Option<&str>) -> (i: usize)
    ensures
        ({
            let id = match monitor_id {
                Some(s) => s@,
                None => "0"@,
            };
            match parse_unsigned(id, usize::MAX as nat) {
                Some(v) => i == v,
                None => i == 0,
            }
        }),
{
    let id = match monitor_id {
        Some(s) => s,
        None => "0",
    };
    match parse_usize(id) {
        Some(v) => v,
        None => 0,
    }
}

/// Names of the video and audio files of a recording started at `millis`.
pub fn recording_file_names(millis: u64) -> (r: (String, String))
    ensures
        r.0@ == "recording_"@ + decimal(millis as nat) + ".mp4"@,
        r.1@ == "recording_"@ + decimal(millis as nat) + ".wav"@,
{
    let n = u64_to_decimal(millis);
    let mut video = owned("recording_");
    video.append(n.as_str());
    push_str(&mut video, ".mp4");
    let mut audio = owned("recording_");
    audio.append(n.as_str());
    push_str(&mut audio, ".wav");
    (video, audio)
}

/// How the cursor looks in a recording: "default" over an arrow (or when
/// no cursor shows), "text" over an I-beam, "pointer" over a hand,
/// "other" otherwise.
pub fn cursor_type_label(showing: bool, is_arrow: bool, is_ibeam: bool, is_hand: bool) -> (r: &'static str)
    ensures
        !showing || is_arrow ==> r@ == "default"@,
        showing && !is_arrow && is_ibeam ==> r@ == "text"@,
        showing && !is_arrow && !is_ibeam && is_hand ==> r@ == "pointer"@,
        showing && !is_arrow && !is_ibeam && !is_hand ==> r@ == "other"@,
{
    if !showing || is_arrow {
        "default"
    } else if is_ibeam {
        "text"
    } else if is_hand {
        "pointer"
    } else {
        "other"
    }
}

// ---------------------------------------------------------------------
// Hotkeys
// ---------------------------------------------------------------------

pub const MOD_ALT: u32 = 0x0001;
pub const MOD_CONTROL: u32 = 0x0002;
pub const MOD_SHIFT: u32 = 0x0004;
pub const MOD_WIN: u32 = 0x0008;

/// A recording hotkey: virtual-key code, modifier mask, display name.
pub struct Hotkey {
    pub code: u32,
    pub modifiers: u32,
    pub name: String,
}

/// The virtual-key code of a browser key code (`KeyboardEvent.code`).
/// Function keys are `F` and a number of at most two characters; as only
/// ASCII digits make a number, counting characters or bytes there decides
/// alike.
pub open spec fn spec_js_code_to_vk(c: Seq<char>) -> Option<u32> {
    if starts_with(c, "Key"@) {
        if c.len() == 4 { Some(c[3] as u32) } else { None }
    } else if starts_with(c, "Digit"@) {
        if c.len() == 6 { Some(c[5] as u32) } else { None }
    } else if starts_with(c, "F"@) && c.len() <= 3 {
        match parse_unsigned(c.skip(1), u32::MAX as nat) {
            Some(n) => Some((0x70 + n - 1) as u32),
            None => None,
        }
    } else if c == "Space"@ {
        Some(0x20)
    } else if c == "Enter"@ {
        Some(0x0D)
    } else if c == "Escape"@ {
        Some(0x1B)
    } else if c == "Backspace"@ {
        Some(0x08)
    } else if c == "Tab"@ {
        Some(0x09)
    } else if c == "Delete"@ {
        Some(0x2E)
    } else if c == "Insert"@ {
        Some(0x2D)
    } else if c == "Home"@ {
        Some(0x24)
    } else if c == "End"@ {
        Some(0x23)
    } else if c == "PageUp"@ {
        Some(0x21)
    } else if c == "PageDown"@ {
        Some(0x22)
    } else if c == "ArrowUp"@ {
        Some(0x26)
    } else if c == "ArrowDown"@ {
        Some(0x28)
    } else if c == "ArrowLeft"@ {
        Some(0x25)
    } else if c == "ArrowRight"@ {
        Some(0x27)
    } else if c == "Backquote"@ {
        Some(0xC0)
    } else if c == "Minus"@ {
        Some(0xBD)
    } else if c == "Equal"@ {
        Some(0xBB)
    } else if c == "BracketLeft"@ {
        Some(0xDB)
    } else if c == "BracketRight"@ {
        Some(0xDD)
    } else if c == "Backslash"@ {
        Some(0xDC)
    } else if c == "Semicolon"@ {
        Some(0xBA)
    } else if c == "Quote"@ {
        Some(0xDE)
    } else if c == "Comma"@ {
        Some(0xBC)
    } else if c == "Period"@ {
        Some(0xBE)
    } else if c == "Slash"@ {
        Some(0xBF)
    } else if starts_with(c, "Numpad"@) {
        if c.len() == 7 { Some((c[6] as u32 + 0x30) as u32) } else { None }
    } else {
        None
    }
}

/// The virtual-key code of a browser key code (see [`spec_js_code_to_vk`]).
pub fn js_code_to_vk(code: &str) -> (r: Option<u32>)
    ensures
        r == spec_js_code_to_vk(code@),
{
    let v = to_chars(code);
    if starts_with_str(code, "Key") {
        return if v.len() == 4 { Some(v[3] as u32) } else { None };
    }
    if starts_with_str(code, "Digit") {
        return if v.len() == 6 { Some(v[5] as u32) } else { None };
    }
    if starts_with_str(code, "F") && v.len() <= 3 {
        assert(v.len() >= 1) by {
            assert(starts_with(code@, "F"@));
            reveal_strlit("F");
        }
        let rest = crate::text::chars_to_string_range(&v, 1, v.len());
        assert(rest@ =~= code@.skip(1));
        return match parse_u32(rest.as_str()) {
            Some(n) => {
                proof {
                    crate::numbers::lemma_short_digits_small(code@.skip(1));
                }
                Some(0x70 + n - 1)
            },
            None => None,
        };
    }
    if str_eq(code, "Space") {
        Some(0x20)
    } else if str_eq(code, "Enter") {
        Some(0x0D)
    } else if str_eq(code, "Escape") {
        Some(0x1B)
    } else if str_eq(code, "Backspace") {
        Some(0x08)
    } else if str_eq(code, "Tab") {
        Some(0x09)
    } else if str_eq(code, "Delete") {
        Some(0x2E)
    } else if str_eq(code, "Insert") {
        Some(0x2D)
    } else if str_eq(code, "Home") {
        Some(0x24)
    } else if str_eq(code, "End") {
        Some(0x23)
    } else if str_eq(code, "PageUp") {
        Some(0x21)
    } else if str_eq(code, "PageDown") {
        Some(0x22)
    } else if str_eq(code, "ArrowUp") {
        Some(0x26)
    } else if str_eq(code, "ArrowDown") {
        Some(0x28)
    } else if str_eq(code, "ArrowLeft") {
        Some(0x25)
    } else if str_eq(code, "ArrowRight") {
        Some(0x27)
    } else if str_eq(code, "Backquote") {
        Some(0xC0)
    } else if str_eq(code, "Minus") {
        Some(0xBD)
    } else if str_eq(code, "Equal") {
        Some(0xBB)
    } else if str_eq(code, "BracketLeft") {
        Some(0xDB)
    } else if str_eq(code, "BracketRight") {
        Some(0xDD)
    } else if str_eq(code, "Backslash") {
        Some(0xDC)
    } else if str_eq(code, "Semicolon") {
        Some(0xBA)
    } else if str_eq(code, "Quote") {
        Some(0xDE)
    } else if str_eq(code, "Comma") {
        Some(0xBC)
    } else if str_eq(code, "Period") {
        Some(0xBE)
    } else if str_eq(code, "Slash") {
        Some(0xBF)
    } else if starts_with_str(code, "Numpad") {
        if v.len() == 7 {
            let c = v[6];
            proof {
                vstd::utf8::char_is_scalar(c);
            }
            Some(c as u32 + 0x30)
        } else {
            None
        }
    } else {
        None
    }
}

/// The names the page sent, each as the text it is (`None` where an entry
/// was not a string).
pub open spec fn names_view(names: Seq<Option<String>>) -> Seq<Option<Seq<char>>> {
    names.map_values(
        |o: Option<String>|
            match o {
                Some(s) => Some(s@),
                None => None,
            },
    )
}

/// Whether a modifier name occurs among the names the page sent.
pub open spec fn names_modifier(names: Seq<Option<Seq<char>>>, m: Seq<char>) -> bool {
    exists|i: int| 0 <= i < names.len() && #[trigger] names[i] == Some(m)
}

/// The modifier mask of the names `Control`, `Alt`, `Shift` and `Meta`
/// (other names are ignored).
pub open spec fn spec_modifier_mask(names: Seq<Option<Seq<char>>>) -> u32 {
    ((if names_modifier(names, "Alt"@) { 1int } else { 0 }) + (if names_modifier(names, "Control"@) {
        2int
    } else {
        0
    }) + (if names_modifier(names, "Shift"@) { 4int } else { 0 }) + (if names_modifier(names, "Meta"@) {
        8int
    } else {
        0
    })) as u32
}

proof fn lemma_four_bits(a: bool, c: bool, s: bool, m: bool, x: u32)
    by (bit_vector)
    requires
        x == (if a { 1u32 } else { 0u32 }) + (if c { 2u32 } else { 0u32 }) + (if s { 4u32 } else { 0u32 }) + (
        if m {
            8u32
        } else {
            0u32
        }),
    ensures
        (x & 1u32 != 0) == a,
        (x & 2u32 != 0) == c,
        (x & 4u32 != 0) == s,
        (x & 8u32 != 0) == m,
        x & !15u32 == 0,
{
}

/// Each modifier name the page sends sets its own bit of the mask, and only
/// names among the page's entries do: `Alt` sets `MOD_ALT`, `Control` sets
/// `MOD_CONTROL`, `Shift` sets `MOD_SHIFT`, `Meta` sets `MOD_WIN`, and no
/// other bit is ever set. A built hotkey carries exactly that mask.
pub proof fn lemma_modifier_bits(
    code: Seq<char>,
    names: Seq<Option<Seq<char>>>,
    key_name: Option<Seq<char>>,
)
    ensures
        ({
            let mask = spec_modifier_mask(names);
            &&& (mask & MOD_ALT != 0) == (exists|i: int| 0 <= i < names.len() && names[i] == Some("Alt"@))
            &&& (mask & MOD_CONTROL != 0) == (exists|i: int|
                0 <= i < names.len() && names[i] == Some("Control"@))
            &&& (mask & MOD_SHIFT != 0) == (exists|i: int| 0 <= i < names.len() && names[i] == Some("Shift"@))
            &&& (mask & MOD_WIN != 0) == (exists|i: int| 0 <= i < names.len() && names[i] == Some("Meta"@))
            &&& mask & !(MOD_ALT | MOD_CONTROL | MOD_SHIFT | MOD_WIN) == 0
        }),
        spec_build_hotkey(Some(code), Some(names), key_name) matches Ok(h) ==> h.1 == spec_modifier_mask(names),
{
    let a = names_modifier(names, "Alt"@);
    let c = names_modifier(names, "Control"@);
    let s = names_modifier(names, "Shift"@);
    let m = names_modifier(names, "Meta"@);
    let x = spec_modifier_mask(names);
    assert(x == (if a { 1u32 } else { 0u32 }) + (if c { 2u32 } else { 0u32 }) + (if s { 4u32 } else { 0u32 })
        + (if m { 8u32 } else { 0u32 }));
    lemma_four_bits(a, c, s, m, x);
    assert(MOD_ALT | MOD_CONTROL | MOD_SHIFT | MOD_WIN == 15u32) by (bit_vector);
}

fn modifier_mask(names: &Vec<Option<String>>) -> (m: u32)
    ensures
        m == spec_modifier_mask(names_view(names@)),
{
    let mut alt = false;
    let mut control = false;
    let mut shift = false;
    let mut meta = false;
    let mut i: usize = 0;
    while i < names.len()
        invariant
            i <= names@.len(),
            alt == names_modifier(names_view(names@.take(i as int)), "Alt"@),
            control == names_modifier(names_view(names@.take(i as int)), "Control"@),
            shift == names_modifier(names_view(names@.take(i as int)), "Shift"@),
            meta == names_modifier(names_view(names@.take(i as int)), "Meta"@),
        decreases names@.len() - i,
    {
        let ghost before = names_view(names@.take(i as int));
        let ghost after = names_view(names@.take(i + 1));
        let ghost item: Option<Seq<char>> = match names@[i as int] {
            Some(n) => Some(n@),
            None => None,
        };
        proof {
            reveal_strlit("Control");
            reveal_strlit("Alt");
            reveal_strlit("Shift");
            reveal_strlit("Meta");
            assert("Control"@.len() == 7 && "Alt"@.len() == 3 && "Shift"@.len() == 5 && "Meta"@.len() == 4);
            assert(after =~= before.push(item));
            assert forall|m: Seq<char>| names_modifier(after, m) <==> (names_modifier(before, m) || item
                == Some(m)) by {
                if names_modifier(after, m) {
                    let j = choose|j: int| 0 <= j < after.len() && #[trigger] after[j] == Some(m);
                    if j < before.len() {
                        assert(before[j] == after[j]);
                    }
                }
                if names_modifier(before, m) {
                    let j = choose|j: int| 0 <= j < before.len() && #[trigger] before[j] == Some(m);
                    assert(after[j] == before[j]);
                }
                if item == Some(m) {
                    assert(after[i as int] == item);
                }
            }
        }
        match &names[i] {
            Some(n) => {
                if str_eq(n.as_str(), "Control") {
                    control = true;
                } else if str_eq(n.as_str(), "Alt") {
                    alt = true;
                } else if str_eq(n.as_str(), "Shift") {
                    shift = true;
                } else if str_eq(n.as_str(), "Meta") {
                    meta = true;
                }
            },
            None => {},
        }
        i = i + 1;
    }
    proof {
        assert(names@.take(names@.len() as int) =~= names@);
    }
    (if alt { 1u32 } else { 0 }) + (if control { 2u32 } else { 0 }) + (if shift { 4u32 } else { 0 }) + (
    if meta {
        8u32
    } else {
        0
    })
}

/// A key name as shown in a hotkey: a single ASCII character in upper
/// case, any other name as it is.
pub open spec fn formatted_key_name(k: Seq<char>) -> Seq<char> {
    if k.len() == 1 && (k[0] as u32) < 128 { seq![upper_ascii(k[0])] } else { k }
}

/// The display name of a hotkey: its modifiers in the order Ctrl, Alt,
/// Shift, Win, then the key, joined by ` + `.
pub open spec fn spec_hotkey_name(modifiers: u32, key: Seq<char>) -> Seq<char> {
    (if modifiers & MOD_CONTROL != 0 { "Ctrl + "@ } else { Seq::empty() }) + (if modifiers & MOD_ALT != 0 {
        "Alt + "@
    } else {
        Seq::empty()
    }) + (if modifiers & MOD_SHIFT != 0 { "Shift + "@ } else { Seq::empty() }) + (if modifiers & MOD_WIN
        != 0 {
        "Win + "@
    } else {
        Seq::empty()
    }) + formatted_key_name(key)
}

/// The display name of a hotkey (see [`spec_hotkey_name`]).
pub fn hotkey_name(modifiers: u32, key_name: &str) -> (r: String)
    ensures
        r@ == spec_hotkey_name(modifiers, key_name@),
{
    let mut r = String::new();
    if modifiers & MOD_CONTROL != 0 {
        push_str(&mut r, "Ctrl + ");
    }
    if modifiers & MOD_ALT != 0 {
        push_str(&mut r, "Alt + ");
    }
    if modifiers & MOD_SHIFT != 0 {
        push_str(&mut r, "Shift + ");
    }
    if modifiers & MOD_WIN != 0 {
        push_str(&mut r, "Win + ");
    }
    let v = to_chars(key_name);
    if v.len() == 1 && (v[0] as u32) < 128 {
        let c = to_upper_ascii(v[0]);
        push_char(&mut r, c);
    } else {
        push_str(&mut r, key_name);
    }
    r
}

/// A hotkey from what the page sent: the browser key code, the names of
/// the modifiers and the key's name (`Unknown` when missing). Fails when
/// the code or the modifiers are missing, or the key code is not supported.
pub open spec fn spec_build_hotkey(
    code: Option<Seq<char>>,
    modifier_names: Option<Seq<Option<Seq<char>>>>,
    key_name: Option<Seq<char>>,
) -> Result<(u32, u32, Seq<char>), Seq<char>> {
    match code {
        None => Err("Missing code"@),
        Some(c) => match modifier_names {
            None => Err("Missing modifiers"@),
            Some(names) => match spec_js_code_to_vk(c) {
                None => Err("Unsupported key code: "@ + c),
                Some(vk) => {
                    let mods = spec_modifier_mask(names);
                    let key = match key_name {
                        Some(k) => k,
                        None => "Unknown"@,
                    };
                    Ok((vk, mods, spec_hotkey_name(mods, key)))
                },
            },
        },
    }
}

pub open spec fn hotkey_view(r: Result<Hotkey, String>) -> Result<(u32, u32, Seq<char>), Seq<char>> {
    match r {
        Ok(h) => Ok((h.code, h.modifiers, h.name@)),
        Err(e) => Err(e@),
    }
}

/// A hotkey from what the page sent (see [`spec_build_hotkey`]).
pub fn build_hotkey(
    code: Option<&str>,
    modifier_names: Option<&Vec<Option<String>>>,
    key_name: Option<&str>,
) -> (r: Result<Hotkey, String>)
    ensures
        hotkey_view(r) == spec_build_hotkey(
            match code {
                Some(c) => Some(c@),
                None => None,
            },
            match modifier_names {
                Some(n) => Some(names_view(n@)),
                None => None,
            },
            match key_name {
                Some(k) => Some(k@),
                None => None,
            },
        ),
{
    let code = match code {
        Some(c) => c,
        None => return Err(owned("Missing code")),
    };
    let names = match modifier_names {
        Some(n) => n,
        None => return Err(owned("Missing modifiers")),
    };
    let vk = match js_code_to_vk(code) {
        Some(v) => v,
        None => {
            let mut e = owned("Unsupported key code: ");
            push_str(&mut e, code);
            return Err(e);
        },
    };
    let modifiers = modifier_mask(names);
    let key = match key_name {
        Some(k) => k,
        None => "Unknown",
    };
    let name = hotkey_name(modifiers, key);
    Ok(Hotkey { code: vk, modifiers, name })
}

/// Add a built hotkey to the recorder's hotkeys, unless the check against
/// the hotkeys already in use found a conflict (`conflict` is its message,
/// which is then the error).
pub fn add_hotkey(hotkeys: &mut Vec<Hotkey>, hotkey: Hotkey, conflict: Option<String>) -> (r: Result<(), String>)
    ensures
        conflict is None ==> r is Ok && final(hotkeys)@ == old(hotkeys)@.push(hotkey),
        conflict matches Some(m) ==> (r matches Err(e) && e@ == m@) && final(hotkeys)@ == old(hotkeys)@,
{
    match conflict {
        Some(m) => Err(m),
        None => {
            hotkeys.push(hotkey);
            Ok(())
        },
    }
}

/// Remove the hotkey at `index` (a number from the page). Fails when the
/// index is missing; returns whether a hotkey was removed.
pub fn remove_hotkey(hotkeys: &mut Vec<Hotkey>, index: Option<u64>) -> (r: Result<bool, String>)
    ensures
        index is None ==> (r matches Err(e) && e@ == "Missing index"@) && final(hotkeys)@ == old(hotkeys)@,
        index is Some && (index->0 as usize) < old(hotkeys)@.len() ==> r == Ok::<bool, String>(true)
            && final(hotkeys)@ == old(hotkeys)@.remove((index->0 as usize) as int),
        index is Some && (index->0 as usize) >= old(hotkeys)@.len() ==> r == Ok::<bool, String>(false)
            && final(hotkeys)@ == old(hotkeys)@,
{
    match index {
        None => Err(owned("Missing index")),
        Some(i) => {
            let i = i as usize;
            if i < hotkeys.len() {
                hotkeys.remove(i);
                Ok(true)
            } else {
                Ok(false)
            }
        },
    }
}

// ---------------------------------------------------------------------
// Serving the recorded video
// ---------------------------------------------------------------------

/// The byte range a request asks for: `bytes=START-END` (either number may
/// be missing or malformed, and then keeps its default); by default the
/// whole file.
pub open spec fn spec_byte_range(header: Option<Seq<char>>, file_size: u64) -> (u64, u64) {
    let default_end: u64 = if file_size > 0 { (file_size - 1) as u64 } else { 0 };
    match header {
        Some(h) => if starts_with(h, "bytes="@) {
            let r = h.skip("bytes="@.len() as int);
            match first_match_from(r, "-"@, 0) {
                Some(p) => if first_match_from(r, "-"@, p + "-"@.len()) is None {
                    let start = match parse_unsigned(r.take(p), u64::MAX as nat) {
                        Some(v) => v as u64,
                        None => 0u64,
                    };
                    let end = match parse_unsigned(r.skip(p + "-"@.len()), u64::MAX as nat) {
                        Some(v) => v as u64,
                        None => default_end,
                    };
                    (start, end)
                } else {
                    (0u64, default_end)
                },
                None => (0u64, default_end),
            }
        } else {
            (0u64, default_end)
        },
        None => (0u64, default_end),
    }
}

/// The byte range of a request (see [`spec_byte_range`]); `header` is the
/// value of its `Range` header.
pub fn byte_range(header: Option<&str>, file_size: u64) -> (r: (u64, u64))
    ensures
        r == spec_byte_range(
            match header {
                Some(h) => Some(h@),
                None => None,
            },
            file_size,
        ),
{
    let default_end = if file_size > 0 { file_size - 1 } else { 0 };
    let h = match header {
        Some(h) => h,
        None => return (0, default_end),
    };
    if !starts_with_str(h, "bytes=") {
        return (0, default_end);
    }
    let v = to_chars(h);
    let n = "bytes=".unicode_len();
    let rest = crate::text::chars_to_string_range(&v, n, v.len());
    assert(rest@ =~= h@.skip("bytes="@.len() as int));
    let rv = to_chars(rest.as_str());
    let dash = "-".unicode_len();
    match find_first(&rv, "-", 0) {
        Some(p) => {
            match find_first(&rv, "-", p + dash) {
                Some(_) => (0, default_end),
                None => {
                    let first = crate::text::chars_to_string_range(&rv, 0, p);
                    let second = crate::text::chars_to_string_range(&rv, p + dash, rv.len());
                    assert(first@ =~= rest@.take(p as int));
                    assert(second@ =~= rest@.skip(p + "-"@.len()));
                    let start = match parse_u64(first.as_str()) {
                        Some(x) => x,
                        None => 0,
                    };
                    let end = match parse_u64(second.as_str()) {
                        Some(x) => x,
                        None => default_end,
                    };
                    (start, end)
                },
            }
        },
        None => (0, default_end),
    }
}

/// The answer to a range request: status, body length, and the
/// `Content-Range` value when only a part is sent.
pub struct RangeResponse {
    pub status: u16,
    pub length: u64,
    pub content_range: Option<String>,
}

/// The answer to a request for bytes `start..=end` of a `file_size`-byte
/// file: the whole file (status 200) from the start, a part (206, with a
/// `Content-Range`) otherwise.
pub fn range_response(start: u64, end: u64, file_size: u64) -> (r: RangeResponse)
    requires
        start <= end < u64::MAX,
    ensures
        r.status == (if start == 0 { 200u16 } else { 206u16 }),
        r.length == end - start + 1,
        start == 0 ==> r.content_range is None,
        start != 0 ==> (r.content_range matches Some(c) && c@ == "bytes "@ + decimal(start as nat) + "-"@
            + decimal(end as nat) + "/"@ + decimal(file_size as nat)),
{
    let content_range = if start != 0 {
        let mut c = owned("bytes ");
        let a = u64_to_decimal(start);
        c.append(a.as_str());
        push_str(&mut c, "-");
        let b = u64_to_decimal(end);
        c.append(b.as_str());
        push_str(&mut c, "/");
        let d = u64_to_decimal(file_size);
        c.append(d.as_str());
        Some(c)
    } else {
        None
    };
    RangeResponse { status: if start == 0 { 200 } else { 206 }, length: end - start + 1, content_range }
}

// ---------------------------------------------------------------------
// The recorder window and its page
// ---------------------------------------------------------------------

/// Top-left corner that centres a `w` x `h` window on a `screen_w` x
/// `screen_h` screen.
pub fn centered_origin(screen_w: i32, screen_h: i32, w: i32, h: i32) -> (p: (i32, i32))
    requires
        coord_ok(screen_w as int),
        coord_ok(screen_h as int),
        coord_ok(w as int),
        coord_ok(h as int),
    ensures
        p.0 == div2_trunc(screen_w - w),
        p.1 == div2_trunc(screen_h - h),
{
    ((screen_w - w) / 2, (screen_h - h) / 2)
}

/// Part of the frameless recorder window under the cursor.
#[derive(Clone, Copy, Debug, PartialEq, Eq, Structural)]
pub enum HitZone {
    TopLeft,
    TopRight,
    Top,
    BottomLeft,
    BottomRight,
    Bottom,
    Left,
    Right,
    Client,
}

/// Hit test of the recorder window `r` at screen point `(x, y)`: an
/// 8-pixel border resizes, everything else belongs to the page.
pub open spec fn spec_hit_zone(r: Rect, x: int, y: int) -> HitZone {
    if y < r.top + 8 {
        if x < r.left + 8 {
            HitZone::TopLeft
        } else if x > r.right - 8 {
            HitZone::TopRight
        } else {
            HitZone::Top
        }
    } else if y > r.bottom - 8 {
        if x < r.left + 8 {
            HitZone::BottomLeft
        } else if x > r.right - 8 {
            HitZone::BottomRight
        } else {
            HitZone::Bottom
        }
    } else if x < r.left + 8 {
        HitZone::Left
    } else if x > r.right - 8 {
        HitZone::Right
    } else {
        HitZone::Client
    }
}

/// Hit test of the recorder window (see [`spec_hit_zone`]).
pub fn hit_zone(r: Rect, x: i32, y: i32) -> (z: HitZone)
    requires
        rect_ok(r),
    ensures
        z == spec_hit_zone(r, x as int, y as int),
{
    let border: i32 = 8;
    if y < r.top + border {
        if x < r.left + border {
            HitZone::TopLeft
        } else if x > r.right - border {
            HitZone::TopRight
        } else {
            HitZone::Top
        }
    } else if y > r.bottom - border {
        if x < r.left + border {
            HitZone::BottomLeft
        } else if x > r.right - border {
            HitZone::BottomRight
        } else {
            HitZone::Bottom
        }
    } else if x < r.left + border {
        HitZone::Left
    } else if x > r.right - border {
        HitZone::Right
    } else {
        HitZone::Client
    }
}

/// A file of the recorder's page.
#[derive(Clone, Copy, Debug, PartialEq, Eq, Structural)]
pub enum Asset {
    IndexHtml,
    IndexJs,
    IndexCss,
    ViteSvg,
    TauriSvg,
    PointerSvg,
    ScreenshotPng,
}

/// The file a request path names, if any.
pub open spec fn spec_route_asset(path: Seq<char>) -> Option<Asset> {
    if path == "/"@ || path == "/index.html"@ {
        Some(Asset::IndexHtml)
    } else if ends_with(path, "index.js"@) {
        Some(Asset::IndexJs)
    } else if ends_with(path, "index.css"@) {
        Some(Asset::IndexCss)
    } else if ends_with(path, "vite.svg"@) {
        Some(Asset::ViteSvg)
    } else if ends_with(path, "tauri.svg"@) {
        Some(Asset::TauriSvg)
    } else if ends_with(path, "pointer.svg"@) {
        Some(Asset::PointerSvg)
    } else if ends_with(path, "screenshot.png"@) {
        Some(Asset::ScreenshotPng)
    } else {
        None
    }
}

/// The file a request path names (see [`spec_route_asset`]).
pub fn route_asset(path: &str) -> (a: Option<Asset>)
    ensures
        a == spec_route_asset(path@),
{
    if str_eq(path, "/") || str_eq(path, "/index.html") {
        Some(Asset::IndexHtml)
    } else if ends_with_str(path, "index.js") {
        Some(Asset::IndexJs)
    } else if ends_with_str(path, "index.css") {
        Some(Asset::IndexCss)
    } else if ends_with_str(path, "vite.svg") {
        Some(Asset::ViteSvg)
    } else if ends_with_str(path, "tauri.svg") {
        Some(Asset::TauriSvg)
    } else if ends_with_str(path, "pointer.svg") {
        Some(Asset::PointerSvg)
    } else if ends_with_str(path, "screenshot.png") {
        Some(Asset::ScreenshotPng)
    } else {
        None
    }
}

/// The content type a file is served with.
pub fn asset_mime(a: Asset) -> (m: &'static str)
    ensures
        a == Asset::IndexHtml ==> m@ == "text/html"@,
        a == Asset::IndexJs ==> m@ == "application/javascript"@,
        a == Asset::IndexCss ==> m@ == "text/css"@,
        (a == Asset::ViteSvg || a == Asset::TauriSvg || a == Asset::PointerSvg) ==> m@ == "image/svg+xml"@,
        a == Asset::ScreenshotPng ==> m@ == "image/png"@,
{
    match a {
        Asset::IndexHtml => "text/html",
        Asset::IndexJs => "application/javascript",
        Asset::IndexCss => "text/css",
        Asset::ViteSvg | Asset::TauriSvg | Asset::PointerSvg => "image/svg+xml",
        Asset::ScreenshotPng => "image/png",
    }
}

/// A message of the recorder's page.
#[derive(Clone, Copy, Debug, PartialEq, Eq, Structural)]
pub enum PageMessage {
    DragWindow,
    MinimizeWindow,
    ToggleMaximize,
    CloseWindow,
    /// Anything else: a command request in JSON.
    Request,
}

pub open spec fn spec_page_message(body: Seq<char>) -> PageMessage {
    if body == "drag_window"@ {
        PageMessage::DragWindow
    } else if body == "minimize_window"@ {
        PageMessage::MinimizeWindow
    } else if body == "toggle_maximize"@ {
        PageMessage::ToggleMaximize
    } else if body == "close_window"@ {
        PageMessage::CloseWindow
    } else {
        PageMessage::Request
    }
}

/// What a message of the recorder's page asks for.
pub fn page_message(body: &str) -> (m: PageMessage)
    ensures
        m == spec_page_message(body@),
{
    if str_eq(body, "drag_window") {
        PageMessage::DragWindow
    } else if str_eq(body, "minimize_window") {
        PageMessage::MinimizeWindow
    } else if str_eq(body, "toggle_maximize") {
        PageMessage::ToggleMaximize
    } else if str_eq(body, "close_window") {
        PageMessage::CloseWindow
    } else {
        PageMessage::Request
    }
}

/// A command the recorder's page requests.
#[derive(Clone, Copy, Debug, PartialEq, Eq, Structural)]
pub enum RecorderCommand {
    GetMonitors,
    StartRecording,
    StopRecording,
    GetHotkeys,
    RemoveHotkey,
    SetHotkey,
    UnregisterHotkeys,
    RegisterHotkeys,
    MinimizeWindow,
    ToggleMaximize,
    CloseWindow,
    IsMaximized,
}

pub open spec fn spec_recorder_command(cmd: Seq<char>) -> Option<RecorderCommand> {
    if cmd == "get_monitors"@ {
        Some(RecorderCommand::GetMonitors)
    } else if cmd == "start_recording"@ {
        Some(RecorderCommand::StartRecording)
    } else if cmd == "stop_recording"@ {
        Some(RecorderCommand::StopRecording)
    } else if cmd == "get_hotkeys"@ {
        Some(RecorderCommand::GetHotkeys)
    } else if cmd == "remove_hotkey"@ {
        Some(RecorderCommand::RemoveHotkey)
    } else if cmd == "set_hotkey"@ {
        Some(RecorderCommand::SetHotkey)
    } else if cmd == "unregister_hotkeys"@ {
        Some(RecorderCommand::UnregisterHotkeys)
    } else if cmd == "register_hotkeys"@ {
        Some(RecorderCommand::RegisterHotkeys)
    } else if cmd == "minimize_window"@ {
        Some(RecorderCommand::MinimizeWindow)
    } else if cmd == "toggle_maximize"@ {
        Some(RecorderCommand::ToggleMaximize)
    } else if cmd == "close_window"@ {
        Some(RecorderCommand::CloseWindow)
    } else if cmd == "is_maximized"@ {
        Some(RecorderCommand::IsMaximized)
    } else {
        None
    }
}

/// The command a request names, or the error an unknown command answers.
pub fn recorder_command(cmd: &str) -> (r: Result<RecorderCommand, String>)
    ensures
        spec_recorder_command(cmd@) matches Some(c) ==> r == Ok::<RecorderCommand, String>(c),
        spec_recorder_command(cmd@) is None ==> (r matches Err(e) && e@ == "Unknown command: "@ + cmd@),
{
    if str_eq(cmd, "get_monitors") {
        Ok(RecorderCommand::GetMonitors)
    } else if str_eq(cmd, "start_recording") {
        Ok(RecorderCommand::StartRecording)
    } else if str_eq(cmd, "stop_recording") {
        Ok(RecorderCommand::StopRecording)
    } else if str_eq(cmd, "get_hotkeys") {
        Ok(RecorderCommand::GetHotkeys)
    } else if str_eq(cmd, "remove_hotkey") {
        Ok(RecorderCommand::RemoveHotkey)
    } else if str_eq(cmd, "set_hotkey") {
        Ok(RecorderCommand::SetHotkey)
    } else if str_eq(cmd, "unregister_hotkeys") {
        Ok(RecorderCommand::UnregisterHotkeys)
    } else if str_eq(cmd, "register_hotkeys") {
        Ok(RecorderCommand::RegisterHotkeys)
    } else if str_eq(cmd, "minimize_window") {
        Ok(RecorderCommand::MinimizeWindow)
    } else if str_eq(cmd, "toggle_maximize") {
        Ok(RecorderCommand::ToggleMaximize)
    } else if str_eq(cmd, "close_window") {
        Ok(RecorderCommand::CloseWindow)
    } else if str_eq(cmd, "is_maximized") {
        Ok(RecorderCommand::IsMaximized)
    } else {
        let mut e = owned("Unknown command: ");
        push_str(&mut e, cmd);
        Err(e)
    }
}

/// The capture monitor chosen by the page's `monitorId` (see
/// [`monitor_index_of`]).
pub open spec fn spec_monitor_index(monitor_id: Option<Seq<char>>) -> usize {
    let id = match monitor_id {
        Some(s) => s,
        None => "0"@,
    };
    match parse_unsigned(id, usize::MAX as nat) {
        Some(v) => v as usize,
        None => 0,
    }
}

/// What a request of the recorder's page asks the recorder to do, with its
/// arguments read. Removing a hotkey is done while the request is read.
pub enum RecorderRequest {
    /// The message is not a request (no `id` or `cmd` string, or no
    /// `args`): nothing is answered.
    NotARequest,
    Command(RecorderCommand),
    StartRecording(usize),
    SetHotkey(Hotkey),
}

/// A read request, or the error it is answered with, in plain values.
pub enum RequestOutcome {
    NotARequest,
    Command(RecorderCommand),
    StartRecording(usize),
    /// Key code, modifier mask and name of the hotkey to set.
    SetHotkey(u32, u32, Seq<char>),
    Error(Seq<char>),
}

pub open spec fn request_view(r: Result<RecorderRequest, String>) -> RequestOutcome {
    match r {
        Ok(RecorderRequest::NotARequest) => RequestOutcome::NotARequest,
        Ok(RecorderRequest::Command(c)) => RequestOutcome::Command(c),
        Ok(RecorderRequest::StartRecording(i)) => RequestOutcome::StartRecording(i),
        Ok(RecorderRequest::SetHotkey(h)) => RequestOutcome::SetHotkey(h.code, h.modifiers, h.name@),
        Err(e) => RequestOutcome::Error(e@),
    }
}

/// Whether a message of the recorder's page is a request: a JSON object
/// with an `id` and a `cmd` string and an `args` value.
pub open spec fn is_recorder_request(body: Seq<char>) -> bool {
    &&& json_string_field(body, "id"@) is Some
    &&& json_string_field(body, "cmd"@) is Some
    &&& json_field_present(body, "args"@)
}

/// What a request comes to, and the recorder's hotkeys afterwards, from
/// whether the message is a request, its command, and the arguments the
/// command reads: `monitorId` to start recording, `code`, `modifiers` and
/// `key` to set a hotkey, `index` to remove one (removed when it is within
/// the list). An unknown command is answered with an error.
pub open spec fn spec_recorder_request(
    is_request: bool,
    cmd: Option<Seq<char>>,
    monitor_id: Option<Seq<char>>,
    code: Option<Seq<char>>,
    modifiers: Option<Seq<Option<Seq<char>>>>,
    key: Option<Seq<char>>,
    index: Option<u64>,
    hotkeys: Seq<Hotkey>,
) -> (RequestOutcome, Seq<Hotkey>) {
    if !is_request || cmd is None {
        (RequestOutcome::NotARequest, hotkeys)
    } else {
        let c = cmd->0;
        match spec_recorder_command(c) {
            None => (RequestOutcome::Error("Unknown command: "@ + c), hotkeys),
            Some(RecorderCommand::StartRecording) => (
                RequestOutcome::StartRecording(spec_monitor_index(monitor_id)),
                hotkeys,
            ),
            Some(RecorderCommand::SetHotkey) => (
                match spec_build_hotkey(code, modifiers, key) {
                    Ok(h) => RequestOutcome::SetHotkey(h.0, h.1, h.2),
                    Err(e) => RequestOutcome::Error(e),
                },
                hotkeys,
            ),
            Some(RecorderCommand::RemoveHotkey) => match index {
                None => (RequestOutcome::Error("Missing index"@), hotkeys),
                Some(i) => (
                    RequestOutcome::Command(RecorderCommand::RemoveHotkey),
                    if ((i as usize) as int) < hotkeys.len() {
                        hotkeys.remove((i as usize) as int)
                    } else {
                        hotkeys
                    },
                ),
            },
            Some(other) => (RequestOutcome::Command(other), hotkeys),
        }
    }
}

/// Reads a message of the recorder's page as a request: its command and
/// the arguments that command reads. Removing a hotkey is applied to
/// `hotkeys` here.
pub fn recorder_request(body: &str, hotkeys: &mut Vec<Hotkey>) -> (r: Result<RecorderRequest, String>)
    ensures
        (request_view(r), final(hotkeys)@) == spec_recorder_request(
            is_recorder_request(body@),
            json_string_field(body@, "cmd"@),
            json_args_str(body@, "monitorId"@),
            json_args_str(body@, "code"@),
            json_args_str_list(body@, "modifiers"@),
            json_args_str(body@, "key"@),
            json_args_u64(body@, "index"@),
            old(hotkeys)@,
        ),
{
    let id = json_str_field(body, "id");
    let has_args = has_json_field(body, "args");
    let cmd = match json_str_field(body, "cmd") {
        Some(c) => c,
        None => return Ok(RecorderRequest::NotARequest),
    };
    if id.is_none() || !has_args {
        return Ok(RecorderRequest::NotARequest);
    }
    let c = match recorder_command(cmd.as_str()) {
        Ok(c) => c,
        Err(e) => return Err(e),
    };
    match c {
        RecorderCommand::StartRecording => {
            let id = read_args_str(body, "monitorId");
            let index = match &id {
                Some(s) => monitor_index_of(Some(s.as_str())),
                None => monitor_index_of(None),
            };
            Ok(RecorderRequest::StartRecording(index))
        },
        RecorderCommand::SetHotkey => {
            let code = read_args_str(body, "code");
            let names = read_args_str_list(body, "modifiers");
            let key = read_args_str(body, "key");
            let code_ref = match &code {
                Some(s) => Some(s.as_str()),
                None => None,
            };
            let key_ref = match &key {
                Some(s) => Some(s.as_str()),
                None => None,
            };
            let names_ref = match &names {
                Some(n) => Some(n),
                None => None,
            };
            match build_hotkey(code_ref, names_ref, key_ref) {
                Ok(h) => Ok(RecorderRequest::SetHotkey(h)),
                Err(e) => Err(e),
            }
        },
        RecorderCommand::RemoveHotkey => {
            let index = read_args_u64(body, "index");
            match remove_hotkey(hotkeys, index) {
                Ok(_) => Ok(RecorderRequest::Command(RecorderCommand::RemoveHotkey)),
                Err(e) => Err(e),
            }
        },
        other => Ok(RecorderRequest::Command(other)),
    }
}

} // verus!
