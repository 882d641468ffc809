//! HTML handling of the markdown view: escaping, word wrapping, detection
//! of raw HTML, injection of the helper scripts and styles, and the data
//! URL fallback page.

use vstd::prelude::*;
use crate::text::{
    chars_to_string, contains_ci, contains_ci_chars, contains_chars, contains_seq, find_first,
    find_first_ci, first_match_ci_from, first_match_from, insert_at, insert_str_at, is_blank,
    is_ws, is_whitespace_char, owned, push_char, push_str, starts_with, starts_with_chars, to_chars,
    trim, trim_string,
};

verus! {

/// In-memory `localStorage` and `sessionStorage` for pages whose storage
/// access is denied.
pub const STORAGE_POLYFILL: &'static str = r#"<script>
(function() {
    // Check if localStorage is accessible
    try {
        var test = '__storage_test__';
        localStorage.setItem(test, test);
        localStorage.removeItem(test);
        // localStorage works, no polyfill needed
    } catch (e) {
        // localStorage blocked, create in-memory polyfill
        var memoryStorage = {};
        var createStorage = function() {
            return {
                _data: {},
                length: 0,
                getItem: function(key) { return this._data.hasOwnProperty(key) ? this._data[key] : null; },
                setItem: function(key, value) { this._data[key] = String(value); this.length = Object.keys(this._data).length; },
                removeItem: function(key) { delete this._data[key]; this.length = Object.keys(this._data).length; },
                clear: function() { this._data = {}; this.length = 0; },
                key: function(i) { var keys = Object.keys(this._data); return keys[i] || null; }
            };
        };
        try {
            Object.defineProperty(window, 'localStorage', { value: createStorage(), writable: false });
            Object.defineProperty(window, 'sessionStorage', { value: createStorage(), writable: false });
        } catch (e2) {
            // If defineProperty fails, try direct assignment
            window.localStorage = createStorage();
            window.sessionStorage = createStorage();
        }
    }
})();
</script>"#;

/// Theme variables of the dark markdown view.
pub const DARK_THEME_CSS: &'static str = r#"
        :root {
            --primary: #4fc3f7; /* Cyan 300 */
            --secondary: #81d4fa; /* Cyan 200 */
            --text-color: white;
            --h3-color: #b3e5fc; /* Cyan 100 */
            --h4-color: #e1f5fe; /* Cyan 50 */
            --code-color: #d4d4d4;
            --link-color: #82b1ff; /* Blue A100 */
            --link-hover-color: #448aff; /* Blue A200 */
            --link-shadow: rgba(68,138,255,0.4);
            --border-color: #333;
            --table-bg: rgba(0,0,0,0.2);
            --table-header-bg: #222;
            --glass: rgba(255, 255, 255, 0.03);
            --shadow-color: rgba(79, 195, 247, 0.6);
            --shadow-weak: rgba(79, 195, 247, 0.3);
            --sort-icon-filter: invert(1) brightness(200%) grayscale(100%);
            --bg: transparent;
        }
        "#;

/// Theme variables of the light markdown view.
pub const LIGHT_THEME_CSS: &'static str = r#"
        :root {
            --primary: #0288d1; /* Light Blue 700 */
            --secondary: #0277bd; /* Light Blue 800 */
            --text-color: #222;
            --h3-color: #01579b; /* Light Blue 900 */
            --h4-color: #0277bd;
            --code-color: #444;
            --link-color: #1976d2; /* Blue 700 */
            --link-hover-color: #0d47a1; /* Blue 900 */
            --link-shadow: rgba(13, 71, 161, 0.25);
            --border-color: #ddd;
            --table-bg: rgba(255,255,255,0.4);
            --table-header-bg: rgba(240,240,240,0.8);
            --glass: rgba(0, 0, 0, 0.03);
            --shadow-color: rgba(2, 136, 209, 0.4);
            --shadow-weak: rgba(2, 136, 209, 0.2);
            --sort-icon-filter: none;
            --bg: transparent;
        }
        "#;

/// Base style of the markdown view.
pub const MARKDOWN_CSS: &'static str = r#"
    :root {
        --bg: transparent;
    }
    * { box-sizing: border-box; }
    
    /* Animation definitions */
    @keyframes shimmer {
        0% { background-position: 100% 0; }
        100% { background-position: -100% 0; }
    }
    
    /* Appearing animation with blur dissolve - matches realtime overlay style */
    @keyframes content-appear {
        from {
            opacity: 0;
            filter: blur(8px);
            -webkit-backdrop-filter: blur(12px);
            backdrop-filter: blur(12px);
            transform: translateY(4px);
        }
        to {
            opacity: 1;
            filter: blur(0);
            -webkit-backdrop-filter: blur(0);
            backdrop-filter: blur(0);
            transform: translateY(0);
        }
    }

    body { 
        font-family: 'Google Sans Flex', 'Segoe UI', -apple-system, sans-serif;
        font-optical-sizing: auto;
        /* wdth 90 for more compact text as requested */
        font-variation-settings: 'wght' 400, 'wdth' 90, 'slnt' 0, 'ROND' 100;
        /* Default size 14px - JavaScript fit_font_to_window handles dynamic scaling for short content */
        font-size: 14px;
        line-height: 1.5; /* Reduced line height for compactness */
        background: var(--bg);
        /* Removed min-height: 100vh to enable proper overflow detection for font scaling */
        color: var(--text-color);
        margin: 0;
        padding: 0; /* Padding now handled by WebView edge margin */
        overflow-x: hidden;
        word-wrap: break-word;
        /* Appearing animation */
        animation: content-appear 0.35s cubic-bezier(0.2, 0, 0.2, 1) forwards;
    }
    
    body > *:first-child { margin-top: 0; }
    
    h1 { 
        font-size: 1.8em; 
        color: var(--primary); 
        margin-top: 0;
        margin-bottom: 12px; /* Reduced from 16px */
        padding: 0px;
        border-radius: 42px;
        backdrop-filter: blur(12px);
        -webkit-backdrop-filter: blur(12px);
        
        font-variation-settings: 'wght' 600, 'wdth' 110, 'slnt' 0, 'ROND' 100;
        text-align: center;
        position: relative;
        overflow: hidden;
    }

    h2 { 
        font-size: 1.4em; 
        color: var(--secondary); 
        /* Removed border-bottom */
        padding-bottom: 4px; 
        margin-top: 1.0em; /* Reduced from 1.2em */
        margin-bottom: 0.5em;
        font-variation-settings: 'wght' 550, 'wdth' 100, 'slnt' 0, 'ROND' 100;
    }

    h3 { 
        font-size: 1.2em; 
        color: var(--h3-color); 
        margin-top: 0.8em; /* Reduced from 1.0em */
        margin-bottom: 0.4em;
        font-variation-settings: 'wght' 500, 'wdth' 100, 'slnt' 0, 'ROND' 100;
    }
    
    h4, h5, h6 { 
        color: var(--h4-color); 
        margin-top: 0.8em;
        margin-bottom: 0.4em;
        font-variation-settings: 'wght' 500, 'wdth' 100, 'slnt' 0, 'ROND' 100;
    }

    p { margin: 0 0; }
    
    /* Interactive Word Styling - COLOR ONLY, preserves font scaling */
    .word {
        display: inline;
        transition: color 0.2s ease, text-shadow 0.2s ease;
        cursor: text;
    }

    /* 1. Center (Hovered) - Bright cyan + glow */
    .word:hover {
        color: var(--primary);
        text-shadow: 0 0 12px var(--shadow-color);
    }

    /* 2. Immediate Neighbors (Distance: 1) - Light cyan */
    .word:hover + .word {
        color: var(--h4-color);
        text-shadow: 0 0 6px var(--shadow-weak);
    }
    .word:has(+ .word:hover) {
        color: var(--h4-color);
        text-shadow: 0 0 6px var(--shadow-weak);
    }

    /* 3. Secondary Neighbors (Distance: 2) - Lighter cyan */
    .word:hover + .word + .word {
        color: var(--h3-color);
    }
    .word:has(+ .word + .word:hover) {
        color: var(--h3-color);
    }

    /* Headers need specific overriding to ensure the fisheye works on top of their base styles */
    h1 .word:hover, h2 .word:hover, h3 .word:hover {
        color: var(--primary);
    }
    
    /* Ensure code blocks remain non-interactive */
    pre .word {
        display: inline;
        transition: none;
    }
    pre .word:hover, 
    pre .word:hover + .word,
    pre .word:has(+ .word:hover) {
        color: inherit;
        text-shadow: none;
    }
    
    pre code { 
        background: transparent; 
        padding: 0; 
        color: var(--code-color);
    }
    
    a { color: var(--link-color); text-decoration: none; transition: all 0.2s; cursor: pointer; }
    a .word { cursor: pointer; } /* Ensure link words show hand cursor */
    a:hover { color: var(--link-hover-color); text-shadow: 0 0 10px var(--link-shadow); text-decoration: none; }
    
    ul, ol { padding-left: 20px; margin: 0 0; }
    li { margin: 2px 0; } /* Reduced from 4px */
    
    table { 
        width: 100%; 
        border-collapse: separate; 
        border-spacing: 0; 
        margin: 12px 0; /* Reduced from 16px */
        border-radius: 8px; 
        overflow: hidden; 
        border: 1px solid var(--border-color); 
        background: var(--table-bg);
    }
    th { 
        background: var(--table-header-bg); 
        padding: 8px 10px; /* Reduced from 10px */
        color: var(--primary); 
        text-align: left;
        font-weight: 600;
        border-bottom: 1px solid var(--border-color);
        font-variation-settings: 'wght' 600, 'wdth' 100, 'slnt' 0, 'ROND' 100;
    }
    td { 
        padding: 6px 10px; /* Reduced from 8px */
        border-top: 1px solid var(--border-color);
    }
    tr:first-child td { border-top: none; }
    tr:hover td { background: var(--glass); }
    
    hr { border: none; height: 1px; background: var(--border-color); margin: 16px 0; } /* Reduced from 24px */
    img { max-width: 100%; border-radius: 8px; box-shadow: 0 4px 12px rgba(0,0,0,0.3); }
    
    /* Streaming chunk animation - blur-dissolve for ONLY new content */
    @keyframes stream-chunk-in {
        from {
            opacity: 0;
            filter: blur(4px);
            transform: translateX(-2px);
        }
        to {
            opacity: 1;
            filter: blur(0);
            transform: translateX(0);
        }
    }
    
    /* Legacy chunk-appear kept for compatibility */
    @keyframes chunk-appear {
        from {
            opacity: 0;
            filter: blur(4px);
        }
        to {
            opacity: 1;
            filter: blur(0);
        }
    }
    
    /* Class for newly streamed text */
    .streaming-new {
        display: inline;
        animation: stream-chunk-in 0.25s ease-out forwards;
    }
    
    /* Smooth transition for all direct body children during updates */
    body > * {
        transition: opacity 0.15s ease-out, filter 0.15s ease-out;
    }
    
    ::-webkit-scrollbar { display: none; }
"#;

/// Style that hides scrollbars while keeping scrolling.
pub const SCROLLBAR_CSS: &'static str = "<style>::-webkit-scrollbar { display: none; }</style>";

/// Document head placed before an HTML fragment.
pub const FRAGMENT_PREFIX: &'static str = "<!DOCTYPE html>\n<html>\n<head>\n    <meta charset=\"UTF-8\">\n    <meta name=\"viewport\" content=\"width=device-width, initial-scale=1.0\">\n</head>\n<body>\n";

/// Document end placed after an HTML fragment.
pub const FRAGMENT_SUFFIX: &'static str = "\n</body>\n</html>";

/// Opening tag of a word span.
pub const WORD_SPAN_OPEN: &'static str = "<span class=\"word\">";

/// Closing tag of a word span.
pub const WORD_SPAN_CLOSE: &'static str = "</span>";

// ---------------------------------------------------------------------
// Escaping
// ---------------------------------------------------------------------

/// The HTML escape of one character.
pub open spec fn escape_char(c: char) -> Seq<char> {
    if c == '&' {
        "&amp;"@
    } else if c == '<' {
        "&lt;"@
    } else if c == '>' {
        "&gt;"@
    } else if c == '"' {
        "&quot;"@
    } else if c == '\'' {
        "&#39;"@
    } else {
        seq![c]
    }
}

/// Text with `&`, `<`, `>`, `"` and `'` replaced by their entities.
pub open spec fn escape_html(s: Seq<char>) -> Seq<char>
    decreases s.len(),
{
    if s.len() == 0 {
        Seq::empty()
    } else {
        escape_html(s.drop_last()) + escape_char(s.last())
    }
}

/// Minimal HTML escaping for text content.
pub fn escape_html_text(text: &str) -> (r: String)
    ensures
        r@ == escape_html(text@),
{
    let v = to_chars(text);
    let mut out = String::new();
    let mut i: usize = 0;
    while i < v.len()
        invariant
            i <= v@.len(),
            out@ == escape_html(v@.take(i as int)),
        decreases v@.len() - i,
    {
        let c = v[i];
        if c == '&' {
            push_str(&mut out, "&amp;");
        } else if c == '<' {
            push_str(&mut out, "&lt;");
        } else if c == '>' {
            push_str(&mut out, "&gt;");
        } else if c == '"' {
            push_str(&mut out, "&quot;");
        } else if c == '\'' {
            push_str(&mut out, "&#39;");
        } else {
            push_char(&mut out, c);
        }
        proof {
            assert(v@.take(i + 1).drop_last() =~= v@.take(i as int));
        }
        i = i + 1;
    }
    proof {
        assert(v@.take(v@.len() as int) =~= v@);
    }
    out
}

/// Escaped text holds no markup: no `<`, `>` or `"` and no apostrophe.
pub proof fn lemma_escaped_text_has_no_markup(s: Seq<char>)
    ensures
        forall|i: int|
            0 <= i < escape_html(s).len() ==> {
                let c = #[trigger] escape_html(s)[i];
                c != '<' && c != '>' && c != '"' && c != '\''
            },
    decreases s.len(),
{
    if s.len() > 0 {
        lemma_escaped_text_has_no_markup(s.drop_last());
        let a = escape_html(s.drop_last());
        let b = escape_char(s.last());
        reveal_strlit("&amp;");
        reveal_strlit("&lt;");
        reveal_strlit("&gt;");
        reveal_strlit("&quot;");
        reveal_strlit("&#39;");
        assert forall|i: int| 0 <= i < (a + b).len() implies {
            let c = #[trigger] (a + b)[i];
            c != '<' && c != '>' && c != '"' && c != '\''
        } by {
            if i >= a.len() {
                assert((a + b)[i] == b[i - a.len()]);
            } else {
                assert((a + b)[i] == a[i]);
            }
        }
    }
}

// ---------------------------------------------------------------------
// Word spans
// ---------------------------------------------------------------------

/// The parts of `s` between single spaces (`s.split(' ')`).
pub open spec fn split_spaces(s: Seq<char>) -> Seq<Seq<char>>
    decreases s.len(),
{
    if s.len() == 0 {
        seq![Seq::<char>::empty()]
    } else {
        let ps = split_spaces(s.drop_last());
        if s.last() == ' ' {
            ps.push(Seq::<char>::empty())
        } else {
            ps.update(ps.len() - 1, ps.last().push(s.last()))
        }
    }
}

/// A part wrapped in a word span, unless it is blank.
pub open spec fn word_span(p: Seq<char>) -> Seq<char> {
    if is_blank(p) {
        p
    } else {
        WORD_SPAN_OPEN@ + p + WORD_SPAN_CLOSE@
    }
}

/// The spans of the parts, each followed by a space.
pub open spec fn spans_with_spaces(ps: Seq<Seq<char>>) -> Seq<char>
    decreases ps.len(),
{
    if ps.len() == 0 {
        Seq::empty()
    } else {
        spans_with_spaces(ps.drop_last()) + word_span(ps.last()) + seq![' ']
    }
}

/// The parts of `s` rejoined with spaces, each non-blank part in a word span.
pub open spec fn word_spans(s: Seq<char>) -> Seq<char> {
    let ps = split_spaces(s);
    spans_with_spaces(ps.drop_last()) + word_span(ps.last())
}

fn is_blank_chars(v: &Vec<char>) -> (b: bool)
    ensures
        b == is_blank(v@),
{
    let mut i: usize = 0;
    while i < v.len()
        invariant
            i <= v@.len(),
            forall|j: int| 0 <= j < i ==> is_ws(#[trigger] v@[j]),
        decreases v@.len() - i,
    {
        if !is_whitespace_char(v[i]) {
            return false;
        }
        i = i + 1;
    }
    true
}

fn push_word_span(out: &mut String, part: &Vec<char>)
    ensures
        final(out)@ == old(out)@ + word_span(part@),
{
    if is_blank_chars(part) {
        let p = chars_to_string(part);
        out.append(p.as_str());
    } else {
        push_str(out, WORD_SPAN_OPEN);
        let p = chars_to_string(part);
        out.append(p.as_str());
        push_str(out, WORD_SPAN_CLOSE);
        assert(final(out)@ =~= old(out)@ + (WORD_SPAN_OPEN@ + part@ + WORD_SPAN_CLOSE@));
    }
}

/// Text of the markdown view as HTML: escaped, with every word in a span
/// so that it can be highlighted.
pub fn wrap_words_html(text: &str) -> (r: String)
    ensures
        r@ == word_spans(escape_html(text@)),
{
    let escaped = escape_html_text(text);
    let v = to_chars(escaped.as_str());
    let mut out = String::new();
    let mut cur: Vec<char> = Vec::new();
    let ghost mut parts: Seq<Seq<char>> = Seq::empty();
    let mut i: usize = 0;
    proof {
        assert(v@.take(0) =~= Seq::<char>::empty());
        assert(parts.push(cur@) =~= seq![Seq::<char>::empty()]);
    }
    while i < v.len()
        invariant
            i <= v@.len(),
            split_spaces(v@.take(i as int)) == parts.push(cur@),
            out@ == spans_with_spaces(parts),
        decreases v@.len() - i,
    {
        let c = v[i];
        proof {
            assert(v@.take(i + 1).drop_last() =~= v@.take(i as int));
            assert(v@.take(i + 1).last() == c);
        }
        if c == ' ' {
            push_word_span(&mut out, &cur);
            push_char(&mut out, ' ');
            proof {
                let np = parts.push(cur@);
                assert(np.drop_last() =~= parts);
                assert(out@ =~= spans_with_spaces(parts) + word_span(cur@) + seq![' ']);
                parts = np;
            }
            cur = Vec::new();
            proof {
                assert(split_spaces(v@.take(i + 1)) =~= parts.push(cur@));
            }
        } else {
            let ghost old_cur = cur@;
            cur.push(c);
            proof {
                assert(parts.push(old_cur).update(parts.len() as int, old_cur.push(c)) =~= parts.push(cur@));
            }
        }
        i = i + 1;
    }
    push_word_span(&mut out, &cur);
    proof {
        assert(v@.take(v@.len() as int) =~= v@);
        assert(parts.push(cur@).drop_last() =~= parts);
    }
    out
}

// ---------------------------------------------------------------------
// Recognising HTML
// ---------------------------------------------------------------------

/// Script or style tags without a document wrapper.
pub open spec fn spec_is_html_fragment(s: Seq<char>) -> bool {
    (contains_ci(s, "<script"@) || contains_ci(s, "<style"@)) && !contains_ci(s, "<!doctype"@)
        && !contains_ci(s, "<html"@)
}

/// The text is an HTML document or fragment rather than markdown.
pub open spec fn spec_is_html_content(s: Seq<char>) -> bool {
    let t = trim(s);
    starts_with(t, "<!DOCTYPE"@) || starts_with(t, "<!doctype"@) || starts_with(t, "<html"@)
        || starts_with(t, "<HTML"@) || (contains_seq(t, "<html"@) && contains_seq(t, "</html>"@))
        || (contains_seq(t, "<head"@) && contains_seq(t, "</head>"@)) || spec_is_html_fragment(s)
}

/// Whether the text is an HTML fragment: script or style tags (in any case)
/// without a doctype or `<html>` wrapper.
pub fn is_html_fragment(content: &str) -> (r: bool)
    ensures
        r == spec_is_html_fragment(content@),
{
    let v = to_chars(content);
    (contains_ci_chars(&v, "<script") || contains_ci_chars(&v, "<style")) && !contains_ci_chars(
        &v,
        "<!doctype",
    ) && !contains_ci_chars(&v, "<html")
}

/// Whether the text is already HTML rather than markdown.
pub fn is_html_content(content: &str) -> (r: bool)
    ensures
        r == spec_is_html_content(content@),
{
    let t = trim_string(content);
    let v = to_chars(t.as_str());
    starts_with_chars(&v, "<!DOCTYPE") || starts_with_chars(&v, "<!doctype") || starts_with_chars(
        &v,
        "<html",
    ) || starts_with_chars(&v, "<HTML") || (contains_chars(&v, "<html") && contains_chars(
        &v,
        "</html>",
    )) || (contains_chars(&v, "<head") && contains_chars(&v, "</head>")) || is_html_fragment(
        content,
    )
}

/// Scripts that may use storage or declare globals: such a page is loaded
/// afresh instead of being written into the existing view.
pub open spec fn spec_content_needs_recreation(s: Seq<char>) -> bool {
    contains_ci(s, "<script"@) && (contains_ci(s, "localstorage"@) || contains_ci(
        s,
        "sessionstorage"@,
    ) || contains_ci(s, "indexeddb"@) || contains_ci(s, "const "@) || contains_ci(s, "let "@)
        || contains_ci(s, "var "@))
}

/// Whether the page must be loaded afresh (see [`spec_content_needs_recreation`]).
pub fn content_needs_recreation(html: &str) -> (r: bool)
    ensures
        r == spec_content_needs_recreation(html@),
{
    let v = to_chars(html);
    contains_ci_chars(&v, "<script") && (contains_ci_chars(&v, "localstorage") || contains_ci_chars(
        &v,
        "sessionstorage",
    ) || contains_ci_chars(&v, "indexeddb") || contains_ci_chars(&v, "const ") || contains_ci_chars(
        &v,
        "let ",
    ) || contains_ci_chars(&v, "var "))
}

/// An HTML fragment wrapped in a complete document.
pub fn wrap_html_fragment(fragment: &str) -> (r: String)
    ensures
        r@ == FRAGMENT_PREFIX@ + fragment@ + FRAGMENT_SUFFIX@,
{
    let mut r = owned(FRAGMENT_PREFIX);
    push_str(&mut r, fragment);
    push_str(&mut r, FRAGMENT_SUFFIX);
    r
}

// ---------------------------------------------------------------------
// Injection of scripts and styles
// ---------------------------------------------------------------------

/// Where the storage stand-in goes: right after `<head>` (or after the end
/// of a `<head ...>` tag), else right after `<html>` (or `<html ...>`);
/// `None` means before everything.
pub open spec fn polyfill_position(h: Seq<char>) -> Option<int> {
    match first_match_ci_from(h, "<head>"@, 0) {
        Some(p) => Some(p + "<head>"@.len()),
        None => match first_match_ci_from(h, "<head "@, 0) {
            Some(p) => match first_match_from(h, ">"@, p) {
                Some(e) => Some(e + ">"@.len()),
                None => None,
            },
            None => match first_match_ci_from(h, "<html>"@, 0) {
                Some(p) => Some(p + "<html>"@.len()),
                None => match first_match_ci_from(h, "<html "@, 0) {
                    Some(p) => match first_match_from(h, ">"@, p) {
                        Some(e) => Some(e + ">"@.len()),
                        None => None,
                    },
                    None => None,
                },
            },
        },
    }
}

/// The document (fragments wrapped first) with the storage stand-in added.
pub open spec fn with_storage_polyfill(html: Seq<char>) -> Seq<char> {
    let h = if spec_is_html_fragment(html) { FRAGMENT_PREFIX@ + html + FRAGMENT_SUFFIX@ } else { html };
    match polyfill_position(h) {
        Some(p) => insert_at(h, p, STORAGE_POLYFILL@),
        None => STORAGE_POLYFILL@ + h,
    }
}

fn after_tag(v: &Vec<char>, p: usize) -> (r: Option<usize>)
    requires
        p <= v@.len(),
    ensures
        crate::text::same_position(r, match first_match_from(v@, ">"@, p as int) {
            Some(e) => Some(e + ">"@.len()),
            None => None,
        }),
        r matches Some(q) ==> q <= v@.len(),
{
    let n = ">".unicode_len();
    let f = find_first(v, ">", p);
    match f {
        Some(e) => {
            assert(e + ">"@.len() <= v@.len());
            assert(v@.len() == v.len());
            Some(e + n)
        },
        None => None,
    }
}

fn polyfill_insert_position(v: &Vec<char>) -> (r: Option<usize>)
    ensures
        crate::text::same_position(r, polyfill_position(v@)),
        r matches Some(q) ==> q <= v@.len(),
{
    match find_first_ci(v, "<head>", 0) {
        Some(p) => Some(p + "<head>".unicode_len()),
        None => match find_first_ci(v, "<head ", 0) {
            Some(p) => after_tag(v, p),
            None => match find_first_ci(v, "<html>", 0) {
                Some(p) => Some(p + "<html>".unicode_len()),
                None => match find_first_ci(v, "<html ", 0) {
                    Some(p) => after_tag(v, p),
                    None => None,
                },
            },
        },
    }
}

/// Add an in-memory `localStorage`/`sessionStorage` stand-in to a page,
/// as early as possible in its head; fragments are first wrapped in a
/// complete document.
pub fn inject_storage_polyfill(html: &str) -> (r: String)
    ensures
        r@ == with_storage_polyfill(html@),
{
    let doc = if is_html_fragment(html) {
        wrap_html_fragment(html)
    } else {
        owned(html)
    };
    let v = to_chars(doc.as_str());
    match polyfill_insert_position(&v) {
        Some(p) => insert_str_at(&v, p, STORAGE_POLYFILL),
        None => {
            let mut r = owned(STORAGE_POLYFILL);
            r.append(doc.as_str());
            r
        },
    }
}

/// Addresses and code of the table library loaded by pages with tables.
pub struct GridAssets {
    pub css_url: String,
    pub js_url: String,
    pub css: String,
    pub init_script: String,
}

/// The head elements that load the table library.
pub open spec fn grid_head(a: GridAssets) -> Seq<char> {
    "<link href=\""@ + a.css_url@ + "\" rel=\"stylesheet\" />\n        <script src=\""@ + a.js_url@
        + "\"></script>\n        <style>"@ + a.css@ + "</style>"@
}

/// The script that starts the table library.
pub open spec fn grid_body(a: GridAssets) -> Seq<char> {
    "<script>"@ + a.init_script@ + "</script>"@
}

/// Position before `</head>`, else before `<body>`, else the start.
pub open spec fn head_end_position(h: Seq<char>) -> int {
    match first_match_ci_from(h, "</head>"@, 0) {
        Some(p) => p,
        None => match first_match_ci_from(h, "<body>"@, 0) {
            Some(p) => p,
            None => 0,
        },
    }
}

/// A page with tables, with the table library added to its head and its
/// start script before `</body>` (or at the end).
pub open spec fn with_gridjs(h: Seq<char>, a: GridAssets) -> Seq<char> {
    if !contains_seq(h, "<table"@) {
        h
    } else {
        let h1 = insert_at(h, head_end_position(h), grid_head(a));
        match first_match_ci_from(h1, "</body>"@, 0) {
            Some(p) => insert_at(h1, p, grid_body(a)),
            None => h1 + grid_body(a),
        }
    }
}

fn head_end_insert_position(v: &Vec<char>) -> (p: usize)
    ensures
        p == head_end_position(v@),
        p <= v@.len(),
{
    match find_first_ci(v, "</head>", 0) {
        Some(p) => p,
        None => match find_first_ci(v, "<body>", 0) {
            Some(p) => p,
            None => 0,
        },
    }
}

pub fn grid_head_html(a: &GridAssets) -> (r: String)
    ensures
        r@ == grid_head(*a),
{
    let mut r = owned("<link href=\"");
    r.append(a.css_url.as_str());
    push_str(&mut r, "\" rel=\"stylesheet\" />\n        <script src=\"");
    r.append(a.js_url.as_str());
    push_str(&mut r, "\"></script>\n        <style>");
    r.append(a.css.as_str());
    push_str(&mut r, "</style>");
    r
}

pub fn grid_body_html(a: &GridAssets) -> (r: String)
    ensures
        r@ == grid_body(*a),
{
    let mut r = owned("<script>");
    r.append(a.init_script.as_str());
    push_str(&mut r, "</script>");
    r
}

/// Add the table library to a page that has tables.
pub fn inject_gridjs(html: &str, assets: &GridAssets) -> (r: String)
    ensures
        r@ == with_gridjs(html@, *assets),
{
    let v = to_chars(html);
    if !contains_chars(&v, "<table") {
        return owned(html);
    }
    let head = grid_head_html(assets);
    let p = head_end_insert_position(&v);
    let h1 = insert_str_at(&v, p, head.as_str());
    let v1 = to_chars(h1.as_str());
    let body = grid_body_html(assets);
    match find_first_ci(&v1, "</body>", 0) {
        Some(q) => insert_str_at(&v1, q, body.as_str()),
        None => {
            let mut r = h1;
            r.append(body.as_str());
            r
        },
    }
}

/// The page with the scrollbar-hiding style before `</head>` (else before
/// `<body>`, else at the start).
pub open spec fn with_scrollbar_css(h: Seq<char>) -> Seq<char> {
    insert_at(h, head_end_position(h), SCROLLBAR_CSS@)
}

/// Hide the scrollbars of a page (see [`with_scrollbar_css`]).
pub fn inject_scrollbar_css(html: &str) -> (r: String)
    ensures
        r@ == with_scrollbar_css(html@),
{
    let v = to_chars(html);
    let p = head_end_insert_position(&v);
    insert_str_at(&v, p, SCROLLBAR_CSS)
}

/// Theme variables of the markdown view.
pub fn get_theme_css(is_dark: bool) -> (r: String)
    ensures
        r@ == (if is_dark { DARK_THEME_CSS@ } else { LIGHT_THEME_CSS@ }),
{
    if is_dark {
        owned(DARK_THEME_CSS)
    } else {
        owned(LIGHT_THEME_CSS)
    }
}

// ---------------------------------------------------------------------
// Passing HTML to the view's scripts
// ---------------------------------------------------------------------

/// The escape of the character at `i` inside a JavaScript template literal.
pub open spec fn js_escape_at(s: Seq<char>, i: int) -> Seq<char> {
    if s[i] == '\\' {
        seq!['\\', '\\']
    } else if s[i] == '`' {
        seq!['\\', '`']
    } else if s[i] == '$' && i + 1 < s.len() && s[i + 1] == '{' {
        seq!['\\', '$']
    } else {
        seq![s[i]]
    }
}

/// The escapes of the first `n` characters.
pub open spec fn js_escape_prefix(s: Seq<char>, n: int) -> Seq<char>
    decreases n,
{
    if n <= 0 {
        Seq::empty()
    } else {
        js_escape_prefix(s, n - 1) + js_escape_at(s, n - 1)
    }
}

/// Text safe inside a JavaScript template literal: backslashes, backticks
/// and `${` are escaped.
pub fn escape_js_template(s: &str) -> (r: String)
    ensures
        r@ == js_escape_prefix(s@, s@.len() as int),
{
    let v = to_chars(s);
    let mut out = String::new();
    let mut i: usize = 0;
    while i < v.len()
        invariant
            i <= v@.len(),
            v@ == s@,
            out@ == js_escape_prefix(s@, i as int),
        decreases v@.len() - i,
    {
        let c = v[i];
        if c == '\\' {
            push_char(&mut out, '\\');
            push_char(&mut out, '\\');
        } else if c == '`' {
            push_char(&mut out, '\\');
            push_char(&mut out, '`');
        } else if c == '$' && i + 1 < v.len() && v[i + 1] == '{' {
            push_char(&mut out, '\\');
            push_char(&mut out, '$');
        } else {
            push_char(&mut out, c);
        }
        proof {
            assert(out@ =~= js_escape_prefix(s@, i as int) + js_escape_at(s@, i as int));
        }
        i = i + 1;
    }
    out
}

/// What lies between `<body>` and the next `</body>`; the whole page when
/// either is missing.
pub open spec fn body_content(h: Seq<char>) -> Seq<char> {
    match first_match_from(h, "<body>"@, 0) {
        Some(p) => match first_match_from(h, "</body>"@, p + "<body>"@.len()) {
            Some(e) => h.subrange(p + "<body>"@.len(), e),
            None => h,
        },
        None => h,
    }
}

/// The content of a page's body (see [`body_content`]).
pub fn extract_body_content(html: &str) -> (r: String)
    ensures
        r@ == body_content(html@),
{
    let v = to_chars(html);
    let open = find_first(&v, "<body>", 0);
    match open {
        Some(p) => {
            let n = "<body>".unicode_len();
            assert(p + "<body>"@.len() <= v@.len());
            assert(v@.len() == v.len());
            let start = p + n;
            let close = find_first(&v, "</body>", start);
            match close {
                Some(e) => {
                    assert(e + "</body>"@.len() <= v@.len());
                    crate::text::chars_to_string_range(&v, start, e)
                },
                None => owned(html),
            }
        },
        None => owned(html),
    }
}

// ---------------------------------------------------------------------
// Updating a loaded view
// ---------------------------------------------------------------------

pub open spec fn js_escaped(s: Seq<char>) -> Seq<char> {
    js_escape_prefix(s, s.len() as int)
}

pub open spec fn document_write_js(html: Seq<char>) -> Seq<char> {
    "document.open(); document.write(`"@ + js_escaped(html) + "`); document.close();"@
}

/// The script that replaces the whole document with `html`.
pub fn document_write_script(html: &str) -> (r: String)
    ensures
        r@ == document_write_js(html@),
{
    let mut r = owned("document.open(); document.write(`");
    let e = escape_js_template(html);
    r.append(e.as_str());
    r.append("`); document.close();");
    r
}

/// How new content reaches a loaded view.
pub enum ContentUpdate {
    /// The page has scripts that need a fresh load: the view is rebuilt.
    Recreate,
    /// The document is rewritten in place by this script.
    Write(String),
}

/// Pages with scripts that use storage or declare variables are loaded
/// afresh; any other page is written into the loaded document.
pub fn plan_content_update(html: &str) -> (r: ContentUpdate)
    ensures
        match r {
            ContentUpdate::Recreate => spec_content_needs_recreation(html@),
            ContentUpdate::Write(script) => !spec_content_needs_recreation(html@) && script@
                == document_write_js(html@),
        },
{
    if content_needs_recreation(html) {
        ContentUpdate::Recreate
    } else {
        ContentUpdate::Write(document_write_script(html))
    }
}

/// Start of the script that streams new body content into the view.
pub const STREAM_SCRIPT_OPEN: &'static str = r#"(function() {
    const newContent = `"#;

/// Rest of the streaming script: font fitting and the word animation.
pub const STREAM_SCRIPT_CLOSE: &'static str = r#"`;
    const prevWordCount = window._streamWordCount || 0;
    
    // Update content
    document.body.innerHTML = newContent;
    
    // --- INTEGRATED FONT SIZING (Heuristic Optimized) ---
    var body = document.body;
    var doc = document.documentElement;
    var winH = window.innerHeight;
    var winW = window.innerWidth;
    
    // Detect new session
    var textLen = (body.innerText || body.textContent || '').trim().length;
    var isNewSession = (!window._streamWordCount || window._streamWordCount < 5 || textLen < 50);
    
    // Dynamic Minimum Size
    // If text is short (< 200 chars), we allow shrinking to 6px to fit purely visual content.
    // If text is longer, we enforce 14px floor for readability.
    var minSize = (textLen < 200) ? 6 : 14;
    
    if (isNewSession) {
         var maxPossible = Math.min(200, winH); 
         
         // Heuristic estimate
         var estimated = Math.sqrt((winW * winH) / (textLen + 1));
         
         var low = Math.max(minSize, Math.floor(estimated * 0.5));
         var high = Math.min(maxPossible, Math.ceil(estimated * 1.5));
         
         if (low > high) low = high;
         
         body.style.fontVariationSettings = "'wght' 400, 'wdth' 90, 'slnt' 0, 'ROND' 100";
         // RESET all spacing properties that might have been ramped up by fit_font_to_window in the previous session
         body.style.letterSpacing = '0px';
         body.style.wordSpacing = '0px';
         body.style.lineHeight = '1.5';
         body.style.paddingTop = '0';
         body.style.paddingBottom = '0';
         var blocks = body.querySelectorAll('p, h1, h2, h3, li, blockquote');
         for (var i = 0; i < blocks.length; i++) {
             blocks[i].style.marginBottom = '0.5em';
             blocks[i].style.paddingBottom = '0';
         }
         // Binary search
         var best = low;
         while (low <= high) {
             var mid = Math.floor((low + high) / 2);
             body.style.fontSize = mid + 'px';
             if (doc.scrollHeight <= (winH + 2)) {
                 best = mid;
                 low = mid + 1;
             } else {
                 high = mid - 1;
             }
         }
         // Enforce floor
         if (best < minSize) best = minSize;
         body.style.fontSize = best + 'px';
         
    } else {
        // Incrementally adjust font size if overflow occurs
        var hasOverflow = doc.scrollHeight > (winH + 2);
        if (hasOverflow) {
            var currentSize = parseFloat(body.style.fontSize) || 14;
            if (currentSize > minSize) {
                // Binary search from minSize to currentSize to find the largest fitting size
                var low = minSize;
                var high = currentSize;
                var best = minSize;
                while (low <= high) {
                    var mid = Math.floor((low + high) / 2);
                    body.style.fontSize = mid + 'px';
                    if (doc.scrollHeight <= (winH + 2)) {
                        best = mid;
                        low = mid + 1;
                    } else {
                        high = mid - 1;
                    }
                }
                body.style.fontSize = best + 'px';
            }
        }
    }
    // ----------------------------
    
    // Get all word spans
    const words = document.querySelectorAll('.word');
    const newWordCount = words.length;
    
    // SKIP animation for the very first chunk (isNewSession)
    if (!isNewSession) {
        let newWords = [];
        for (let i = prevWordCount; i < newWordCount; i++) {
            newWords.push(words[i]);
        }
        
        if (newWords.length > 0) {
            // Set initial state
            newWords.forEach(w => {
                w.style.opacity = '0';
                w.style.filter = 'blur(2px)';
            });
            
            requestAnimationFrame(() => {
                 newWords.forEach(w => {
                    w.style.transition = 'opacity 0.35s ease-out, filter 0.35s ease-out';
                    w.style.opacity = '1';
                    w.style.filter = 'blur(0)';
                 });
            });
        }
    }
    
    window._streamWordCount = newWordCount;
    window.scrollTo({ top: document.body.scrollHeight, behavior: 'smooth' });
})()"#;

pub open spec fn stream_js(html: Seq<char>) -> Seq<char> {
    STREAM_SCRIPT_OPEN@ + js_escaped(body_content(html)) + STREAM_SCRIPT_CLOSE@
}

/// The script that streams the body of the page `html` into a loaded
/// view, animating the words that are new.
pub fn stream_script(html: &str) -> (r: String)
    ensures
        r@ == stream_js(html@),
{
    let body = extract_body_content(html);
    let e = escape_js_template(body.as_str());
    let mut r = owned(STREAM_SCRIPT_OPEN);
    r.append(e.as_str());
    r.append(STREAM_SCRIPT_CLOSE);
    r
}

/// The script that forgets what was streamed, so that the next stream
/// starts a new session.
pub const STREAM_RESET_SCRIPT: &'static str =
    "window._streamPrevLen = 0; window._streamPrevContent = ''; window._streamWordCount = 0;";

// ---------------------------------------------------------------------
// Data URLs
// ---------------------------------------------------------------------

/// Bytes left as they are by URL encoding: ASCII letters and digits and
/// `-`, `.`, `_`, `~`.
pub open spec fn is_url_safe_byte(b: u8) -> bool {
    (0x30 <= b <= 0x39) || (0x41 <= b <= 0x5a) || (0x61 <= b <= 0x7a) || b == 0x2d || b == 0x2e
        || b == 0x5f || b == 0x7e
}

/// Upper-case hexadecimal digit of `d` (below 16).
pub open spec fn hex_digit_upper(d: int) -> char {
    if d < 10 { (0x30 + d) as char } else { (0x41 + d - 10) as char }
}

/// One byte URL encoded.
pub open spec fn percent_encode_byte(b: u8) -> Seq<char> {
    if is_url_safe_byte(b) {
        seq![b as char]
    } else {
        seq!['%', hex_digit_upper(b as int / 16), hex_digit_upper(b as int % 16)]
    }
}

/// Bytes URL encoded, byte after byte.
pub open spec fn percent_encoded(bytes: Seq<u8>) -> Seq<char>
    decreases bytes.len(),
{
    if bytes.len() == 0 {
        Seq::empty()
    } else {
        percent_encoded(bytes.drop_last()) + percent_encode_byte(bytes.last())
    }
}

/// `urlencoding::encode`: percent-encodes every byte of the UTF-8 text
/// except ASCII letters, digits and `-`, `.`, `_`, `~`, with upper-case
/// hexadecimal digits.
#[verifier::external_body]
fn url_encode(s: &str) -> (r: String)
    ensures
        r@ == percent_encoded(vstd::utf8::encode_utf8(s@)),
{
    urlencoding::encode(s).into_owned()
}

/// A `data:` URL that shows the page `html`.
pub fn html_data_url(html: &str) -> (r: String)
    ensures
        r@ == "data:text/html,"@ + percent_encoded(vstd::utf8::encode_utf8(html@)),
{
    let mut r = owned("data:text/html,");
    let e = url_encode(html);
    r.append(e.as_str());
    r
}

} // verus!
