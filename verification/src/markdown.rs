//! The markdown view's page: markdown rendered by pulldown-cmark with every
//! word of running text in a span, or raw HTML passed through with helper
//! scripts, or the context quote shown while a text is being refined.

use vstd::prelude::*;
use pulldown_cmark::{html, Event, Options, Parser, Tag, TagEnd};
use crate::html::{
    escape_html, get_theme_css, grid_body, grid_body_html, grid_head, grid_head_html,
    inject_gridjs, inject_scrollbar_css, inject_storage_polyfill, is_html_content,
    spec_is_html_content, with_gridjs, with_scrollbar_css, with_storage_polyfill, word_spans,
    wrap_words_html, GridAssets, DARK_THEME_CSS, LIGHT_THEME_CSS, MARKDOWN_CSS,
};
use crate::text::{contains_seq, contains_str, owned, push_str, push_char, lower_ascii, to_lower_ascii, to_chars, trim, trim_string, chars_to_string_range};

verus! {

/// Start of a page, up to the theme style.
pub const PAGE_HEAD_OPEN: &'static str = "<!DOCTYPE html>\n<html>\n<head>\n    <meta charset=\"UTF-8\">\n    <meta name=\"viewport\" content=\"width=device-width, initial-scale=1.0\">\n    <style>";

/// End of a style element and indentation.
pub const STYLE_CLOSE: &'static str = "</style>\n    ";

/// Opening of the style element of the quote page.
pub const QUOTE_STYLE_OPEN: &'static str = "\n    <style>\n        ";

/// Style of the quote page, end of its head and start of its body.
pub const QUOTE_STYLE_REST: &'static str = " \n        body { \n            display: flex; \n            align-items: center; \n            justify-content: center; \n            text-align: center; \n            height: 100vh; \n            margin: 0; \n            padding: 12px;\n            font-style: italic;\n            color: #aaa;\n            font-size: 16px;\n        }\n    </style>\n</head>\n<body>\n    ";

/// End of the quote page.
pub const QUOTE_PAGE_END: &'static str = "\n    \n</body>\n</html>";

/// Opening of the base style element of a markdown page.
pub const PAGE_STYLE_OPEN: &'static str = "\n    <style>";

/// End of the head and start of the body of a markdown page.
pub const PAGE_BODY_OPEN: &'static str = "\n</head>\n<body>\n    ";

/// Separator after the rendered body of a markdown page.
pub const PAGE_BODY_SEP: &'static str = "\n    ";

/// End of a markdown page.
pub const PAGE_END: &'static str = "\n</body>\n</html>";

/// A parser event, reduced to what the word wrapping reads.
pub enum MdEvent {
    StartCodeBlock,
    EndCodeBlock,
    StartTable,
    EndTable,
    Text(String),
    SoftBreak,
    /// Any other event, which is kept as it is.
    Other,
}

/// [`MdEvent`] as a value.
pub enum MdEventView {
    StartCodeBlock,
    EndCodeBlock,
    StartTable,
    EndTable,
    Text(Seq<char>),
    SoftBreak,
    Other,
}

impl View for MdEvent {
    type V = MdEventView;

    open spec fn view(&self) -> MdEventView {
        match self {
            MdEvent::StartCodeBlock => MdEventView::StartCodeBlock,
            MdEvent::EndCodeBlock => MdEventView::EndCodeBlock,
            MdEvent::StartTable => MdEventView::StartTable,
            MdEvent::EndTable => MdEventView::EndTable,
            MdEvent::Text(t) => MdEventView::Text(t@),
            MdEvent::SoftBreak => MdEventView::SoftBreak,
            MdEvent::Other => MdEventView::Other,
        }
    }
}

/// What becomes of one parser event before rendering.
pub enum Rewrite {
    /// The event is rendered as the parser produced it.
    Keep,
    /// The event is replaced by this raw HTML.
    Html(String),
    /// The event is replaced by a hard line break.
    HardBreak,
}

/// [`Rewrite`] as a value.
pub enum RewriteView {
    Keep,
    Html(Seq<char>),
    HardBreak,
}

impl View for Rewrite {
    type V = RewriteView;

    open spec fn view(&self) -> RewriteView {
        match self {
            Rewrite::Keep => RewriteView::Keep,
            Rewrite::Html(h) => RewriteView::Html(h@),
            Rewrite::HardBreak => RewriteView::HardBreak,
        }
    }
}

/// The events that pulldown-cmark produces for a markdown text, with
/// tables, strikethrough and task lists enabled.
pub uninterp spec fn markdown_events(md: Seq<char>) -> Seq<MdEventView>;

/// The HTML that pulldown-cmark writes for a markdown text whose events
/// (same options as [`markdown_events`]) are rewritten one by one.
pub uninterp spec fn rendered_markdown(md: Seq<char>, rewrites: Seq<RewriteView>) -> Seq<char>;

/// `pulldown_cmark::Parser::new_ext` on the text with tables,
/// strikethrough and task lists enabled; each event is reduced to an
/// [`MdEvent`]. The contract names the result and says nothing more.
#[verifier::external_body]
fn parse_markdown_events(markdown: &str) -> (events: Vec<MdEvent>)
    ensures
        events@.map_values(|e: MdEvent| e@) == markdown_events(markdown@),
{
    let opts = Options::ENABLE_TABLES | Options::ENABLE_STRIKETHROUGH | Options::ENABLE_TASKLISTS;
    Parser::new_ext(markdown, opts).map(|ev| match ev {
        Event::Start(Tag::CodeBlock(_)) => MdEvent::StartCodeBlock,
        Event::End(TagEnd::CodeBlock) => MdEvent::EndCodeBlock,
        Event::Start(Tag::Table(_)) => MdEvent::StartTable,
        Event::End(TagEnd::Table) => MdEvent::EndTable,
        Event::Text(t) => MdEvent::Text(t.into_string()),
        Event::SoftBreak => MdEvent::SoftBreak,
        _ => MdEvent::Other,
    }).collect()
}

/// `pulldown_cmark::html::push_html` on the events of
/// `Parser::new_ext` (options as in [`parse_markdown_events`]), each
/// event replaced as the rewrite at its position says. The contract names
/// the result and says nothing more.
#[verifier::external_body]
fn render_markdown_html(markdown: &str, rewrites: &Vec<Rewrite>) -> (html: String)
    ensures
        html@ == rendered_markdown(markdown@, rewrites@.map_values(|r: Rewrite| r@)),
{
    let opts = Options::ENABLE_TABLES | Options::ENABLE_STRIKETHROUGH | Options::ENABLE_TASKLISTS;
    let events = Parser::new_ext(markdown, opts).zip(rewrites.iter()).map(|(ev, rw)| match rw {
        Rewrite::Keep => ev,
        Rewrite::Html(h) => Event::Html(h.clone().into()),
        Rewrite::HardBreak => Event::HardBreak,
    });
    let mut out = String::new();
    html::push_html(&mut out, events);
    out
}

/// (inside a code block, inside a table) after the first `n` events.
pub open spec fn block_state_after(es: Seq<MdEventView>, n: int) -> (bool, bool)
    decreases n,
{
    if n <= 0 {
        (false, false)
    } else {
        let st = block_state_after(es, n - 1);
        match es[n - 1] {
            MdEventView::StartCodeBlock => (true, st.1),
            MdEventView::EndCodeBlock => (false, st.1),
            MdEventView::StartTable => (st.0, true),
            MdEventView::EndTable => (st.0, false),
            _ => st,
        }
    }
}

/// Text outside code blocks and tables becomes word spans; soft breaks
/// become hard breaks; everything else is kept.
pub open spec fn rewrite_for(e: MdEventView, st: (bool, bool)) -> RewriteView {
    match e {
        MdEventView::Text(t) => if !st.0 && !st.1 {
            RewriteView::Html(word_spans(escape_html(t)))
        } else {
            RewriteView::Keep
        },
        MdEventView::SoftBreak => RewriteView::HardBreak,
        _ => RewriteView::Keep,
    }
}

/// The rewrite of every event, each in the block state before it.
pub open spec fn rewrites_for(es: Seq<MdEventView>) -> Seq<RewriteView> {
    Seq::new(es.len(), |i: int| rewrite_for(es[i], block_state_after(es, i)))
}

/// Whether the event at `n` lies inside a block opened by `open` and closed
/// by `close`: some earlier event opens it and no event since closes it.
pub open spec fn inside_block(es: Seq<MdEventView>, n: int, open: MdEventView, close: MdEventView) -> bool {
    exists|j: int|
        0 <= j < n && es[j] == open && (forall|k: int| j < k < n ==> #[trigger] es[k] != close)
}

proof fn lemma_block_state_is_inside(es: Seq<MdEventView>, n: int)
    requires
        0 <= n <= es.len(),
    ensures
        block_state_after(es, n).0 == inside_block(es, n, MdEventView::StartCodeBlock, MdEventView::EndCodeBlock),
        block_state_after(es, n).1 == inside_block(es, n, MdEventView::StartTable, MdEventView::EndTable),
    decreases n,
{
    if n > 0 {
        lemma_block_state_is_inside(es, n - 1);
        lemma_inside_step(es, n, MdEventView::StartCodeBlock, MdEventView::EndCodeBlock);
        lemma_inside_step(es, n, MdEventView::StartTable, MdEventView::EndTable);
    }
}

proof fn lemma_inside_step(es: Seq<MdEventView>, n: int, open: MdEventView, close: MdEventView)
    requires
        0 < n <= es.len(),
        open != close,
    ensures
        es[n - 1] == open ==> inside_block(es, n, open, close),
        es[n - 1] == close ==> !inside_block(es, n, open, close),
        es[n - 1] != open && es[n - 1] != close ==> (inside_block(es, n, open, close) == inside_block(
            es,
            n - 1,
            open,
            close,
        )),
{
    if es[n - 1] == open {
        assert(forall|k: int| n - 1 < k < n ==> #[trigger] es[k] != close);
    }
    if es[n - 1] == close && inside_block(es, n, open, close) {
        let j = choose|j: int|
            0 <= j < n && es[j] == open && (forall|k: int| j < k < n ==> #[trigger] es[k] != close);
        assert(es[n - 1] != close);
    }
    if es[n - 1] != open && es[n - 1] != close {
        if inside_block(es, n, open, close) {
            let j = choose|j: int|
                0 <= j < n && es[j] == open && (forall|k: int| j < k < n ==> #[trigger] es[k] != close);
            assert(j < n - 1);
            assert(forall|k: int| j < k < n - 1 ==> #[trigger] es[k] != close);
        }
        if inside_block(es, n - 1, open, close) {
            let j = choose|j: int|
                0 <= j < n - 1 && es[j] == open && (forall|k: int| j < k < n - 1 ==> #[trigger] es[k] != close);
            assert(forall|k: int| j < k < n ==> #[trigger] es[k] != close);
        }
    }
}

/// How each event is rewritten, in terms of the events before it: text is
/// turned into word spans of its escaped characters exactly when it lies in
/// no code block and no table (a block counts as open from its start event
/// until its end event), soft breaks become hard breaks, and every other
/// event is kept. One rewrite per event.
pub proof fn lemma_rewrites_follow_open_blocks(es: Seq<MdEventView>)
    ensures
        rewrites_for(es).len() == es.len(),
        forall|i: int| 0 <= i < es.len() ==> (#[trigger] rewrites_for(es)[i]) == (match es[i] {
            MdEventView::Text(t) => if !inside_block(
                es,
                i,
                MdEventView::StartCodeBlock,
                MdEventView::EndCodeBlock,
            ) && !inside_block(es, i, MdEventView::StartTable, MdEventView::EndTable) {
                RewriteView::Html(word_spans(escape_html(t)))
            } else {
                RewriteView::Keep
            },
            MdEventView::SoftBreak => RewriteView::HardBreak,
            _ => RewriteView::Keep,
        }),
{
    assert forall|i: int| 0 <= i < es.len() implies (#[trigger] rewrites_for(es)[i]) == (match es[i] {
        MdEventView::Text(t) => if !inside_block(es, i, MdEventView::StartCodeBlock, MdEventView::EndCodeBlock)
            && !inside_block(es, i, MdEventView::StartTable, MdEventView::EndTable) {
            RewriteView::Html(word_spans(escape_html(t)))
        } else {
            RewriteView::Keep
        },
        MdEventView::SoftBreak => RewriteView::HardBreak,
        _ => RewriteView::Keep,
    }) by {
        lemma_block_state_is_inside(es, i);
    }
}

/// The rewrite of each parser event (see [`rewrite_for`]).
pub fn rewrite_events(events: &Vec<MdEvent>) -> (r: Vec<Rewrite>)
    ensures
        r@.map_values(|x: Rewrite| x@) == rewrites_for(events@.map_values(|e: MdEvent| e@)),
{
    let ghost es = events@.map_values(|e: MdEvent| e@);
    let mut r: Vec<Rewrite> = Vec::new();
    let mut in_code_block = false;
    let mut in_table = false;
    let mut i: usize = 0;
    while i < events.len()
        invariant
            es == events@.map_values(|e: MdEvent| e@),
            i <= events@.len(),
            r@.len() == i,
            (in_code_block, in_table) == block_state_after(es, i as int),
            forall|j: int| 0 <= j < i ==> (#[trigger] r@[j])@ == rewrite_for(es[j], block_state_after(es, j)),
        decreases events@.len() - i,
    {
        let ghost st = (in_code_block, in_table);
        let rw = match &events[i] {
            MdEvent::StartCodeBlock => {
                in_code_block = true;
                Rewrite::Keep
            },
            MdEvent::EndCodeBlock => {
                in_code_block = false;
                Rewrite::Keep
            },
            MdEvent::StartTable => {
                in_table = true;
                Rewrite::Keep
            },
            MdEvent::EndTable => {
                in_table = false;
                Rewrite::Keep
            },
            MdEvent::Text(t) => {
                if !in_code_block && !in_table {
                    Rewrite::Html(wrap_words_html(t.as_str()))
                } else {
                    Rewrite::Keep
                }
            },
            MdEvent::SoftBreak => Rewrite::HardBreak,
            MdEvent::Other => Rewrite::Keep,
        };
        proof {
            assert(es[i as int] == events@[i as int]@);
            assert(rw@ == rewrite_for(es[i as int], st));
        }
        r.push(rw);
        i = i + 1;
    }
    proof {
        assert(r@.map_values(|x: Rewrite| x@) =~= rewrites_for(es));
    }
    r
}

// ---------------------------------------------------------------------
// The page
// ---------------------------------------------------------------------

/// Fonts and table library a page loads.
pub struct PageAssets {
    /// Font face declarations.
    pub font_css: String,
    pub grid: GridAssets,
}

/// The font declarations as a style element.
pub open spec fn font_style(font_css: Seq<char>) -> Seq<char> {
    "<style>"@ + font_css + "</style>"@
}

pub open spec fn theme_css(is_dark: bool) -> Seq<char> {
    if is_dark { DARK_THEME_CSS@ } else { LIGHT_THEME_CSS@ }
}

/// The page shown while a text is being refined: the quoted context,
/// centred.
pub open spec fn quote_page(theme: Seq<char>, font: Seq<char>, quote: Seq<char>) -> Seq<char> {
    PAGE_HEAD_OPEN@ + theme + STYLE_CLOSE@ + font + QUOTE_STYLE_OPEN@ + MARKDOWN_CSS@
        + QUOTE_STYLE_REST@ + quote + QUOTE_PAGE_END@
}

/// The page around rendered markdown, with the table library when the
/// rendered HTML has a table.
pub open spec fn markdown_page(theme: Seq<char>, font: Seq<char>, grid: GridAssets, body: Seq<char>) -> Seq<char> {
    let has_table = contains_seq(body, "<table"@);
    let head_extra = if has_table { grid_head(grid) } else { Seq::empty() };
    let body_extra = if has_table { grid_body(grid) } else { Seq::empty() };
    PAGE_HEAD_OPEN@ + theme + STYLE_CLOSE@ + font + PAGE_STYLE_OPEN@ + MARKDOWN_CSS@ + STYLE_CLOSE@
        + head_extra + PAGE_BODY_OPEN@ + body + PAGE_BODY_SEP@ + body_extra + PAGE_END@
}

/// The markdown view's page for a text: the context quote while refining;
/// raw HTML with the storage stand-in, the table library and hidden
/// scrollbars; or rendered markdown with words in spans.
pub open spec fn spec_markdown_to_html(md: Seq<char>, is_refining: bool, quote: Seq<char>, is_dark: bool, a: PageAssets) -> Seq<char> {
    if is_refining {
        quote_page(theme_css(is_dark), font_style(a.font_css@), quote)
    } else if spec_is_html_content(md) {
        with_scrollbar_css(with_gridjs(with_storage_polyfill(md), a.grid))
    } else {
        markdown_page(
            theme_css(is_dark),
            font_style(a.font_css@),
            a.grid,
            rendered_markdown(md, rewrites_for(markdown_events(md))),
        )
    }
}

/// The context shown while refining: the preset prompt, and below it the
/// input text when there is one.
pub fn refining_context_text(preset_prompt: &str, input_text: &str) -> (r: String)
    ensures
        input_text@.len() == 0 ==> r@ == preset_prompt@,
        input_text@.len() != 0 ==> r@ == preset_prompt@ + "\n\n"@ + input_text@,
{
    let mut r = owned(preset_prompt);
    if input_text.unicode_len() != 0 {
        push_str(&mut r, "\n\n");
        push_str(&mut r, input_text);
    }
    r
}

fn font_style_html(font_css: &str) -> (r: String)
    ensures
        r@ == font_style(font_css@),
{
    let mut r = owned("<style>");
    push_str(&mut r, font_css);
    push_str(&mut r, "</style>");
    r
}

/// The page shown while refining (see [`quote_page`]).
pub fn quote_page_html(is_dark: bool, font_css: &str, quote: &str) -> (r: String)
    ensures
        r@ == quote_page(theme_css(is_dark), font_style(font_css@), quote@),
{
    let mut r = owned(PAGE_HEAD_OPEN);
    let theme = get_theme_css(is_dark);
    r.append(theme.as_str());
    push_str(&mut r, STYLE_CLOSE);
    let font = font_style_html(font_css);
    r.append(font.as_str());
    push_str(&mut r, QUOTE_STYLE_OPEN);
    push_str(&mut r, MARKDOWN_CSS);
    push_str(&mut r, QUOTE_STYLE_REST);
    push_str(&mut r, quote);
    push_str(&mut r, QUOTE_PAGE_END);
    r
}

/// The page around rendered markdown (see [`markdown_page`]).
pub fn markdown_page_html(is_dark: bool, assets: &PageAssets, body: &str) -> (r: String)
    ensures
        r@ == markdown_page(theme_css(is_dark), font_style(assets.font_css@), assets.grid, body@),
{
    let has_table = contains_str(body, "<table");
    let mut r = owned(PAGE_HEAD_OPEN);
    let theme = get_theme_css(is_dark);
    r.append(theme.as_str());
    push_str(&mut r, STYLE_CLOSE);
    let font = font_style_html(assets.font_css.as_str());
    r.append(font.as_str());
    push_str(&mut r, PAGE_STYLE_OPEN);
    push_str(&mut r, MARKDOWN_CSS);
    push_str(&mut r, STYLE_CLOSE);
    if has_table {
        let head = grid_head_html(&assets.grid);
        r.append(head.as_str());
    }
    push_str(&mut r, PAGE_BODY_OPEN);
    push_str(&mut r, body);
    push_str(&mut r, PAGE_BODY_SEP);
    if has_table {
        let tail = grid_body_html(&assets.grid);
        r.append(tail.as_str());
    }
    push_str(&mut r, PAGE_END);
    proof {
        if !has_table {
            assert(r@ =~= markdown_page(theme_css(is_dark), font_style(assets.font_css@), assets.grid, body@));
        }
    }
    r
}

/// Convert a markdown text to the markdown view's page, or pass raw HTML
/// through with the helper scripts added (see [`spec_markdown_to_html`]).
/// `context_quote` is the quote shown while refining.
pub fn markdown_to_html(
    markdown: &str,
    is_refining: bool,
    context_quote: &str,
    is_dark: bool,
    assets: &PageAssets,
) -> (r: String)
    ensures
        r@ == spec_markdown_to_html(markdown@, is_refining, context_quote@, is_dark, *assets),
{
    if is_refining {
        return quote_page_html(is_dark, assets.font_css.as_str(), context_quote);
    }
    if is_html_content(markdown) {
        let with_storage = inject_storage_polyfill(markdown);
        let with_grid = inject_gridjs(with_storage.as_str(), &assets.grid);
        return inject_scrollbar_css(with_grid.as_str());
    }
    let events = parse_markdown_events(markdown);
    let rewrites = rewrite_events(&events);
    let body = render_markdown_html(markdown, &rewrites);
    markdown_page_html(is_dark, assets, body.as_str())
}

// ---------------------------------------------------------------------
// File name of a saved page
// ---------------------------------------------------------------------

/// `s` without the characters that occur in `bad`.
pub open spec fn without_chars(s: Seq<char>, bad: Seq<char>) -> Seq<char>
    decreases s.len(),
{
    if s.len() == 0 {
        Seq::empty()
    } else {
        without_chars(s.drop_last(), bad) + (if bad.contains(s.last()) { Seq::empty() } else { seq![s.last()] })
    }
}

/// Whether `s` ends with `suffix` (given in lower case), ignoring ASCII case.
pub open spec fn ends_with_ci(s: Seq<char>, suffix: Seq<char>) -> bool {
    suffix.len() <= s.len() && forall|j: int|
        0 <= j < suffix.len() ==> lower_ascii(#[trigger] s[s.len() - suffix.len() + j]) == suffix[j]
}

/// `s` without `suffix` at its end, when it ends so ignoring ASCII case.
pub open spec fn strip_suffix_ci(s: Seq<char>, suffix: Seq<char>) -> Seq<char> {
    if ends_with_ci(s, suffix) { s.take(s.len() - suffix.len()) } else { s }
}

pub open spec fn quote_chars() -> Seq<char> {
    seq!['"', '\'', '`']
}

/// Characters not allowed in file names.
pub open spec fn invalid_file_chars() -> Seq<char> {
    seq!['<', '>', ':', '"', '/', '\\', '|', '?', '*']
}

/// The file name made of a suggested name: trimmed, without quotes, without
/// a trailing `.html` and then a trailing `-html` or `_html` (in any case),
/// without characters that file names cannot hold, with `.html` appended;
/// `result.html` when nothing is left.
pub open spec fn spec_clean_filename(suggested: Seq<char>) -> Seq<char> {
    let n1 = without_chars(trim(suggested), quote_chars());
    let n2 = strip_suffix_ci(n1, ".html"@);
    let n3 = if ends_with_ci(n2, "-html"@) {
        strip_suffix_ci(n2, "-html"@)
    } else {
        strip_suffix_ci(n2, "_html"@)
    };
    let n4 = without_chars(n3, invalid_file_chars());
    if n4.len() == 0 { "result.html"@ } else { n4 + ".html"@ }
}

fn remove_chars(v: &Vec<char>, bad: &Vec<char>) -> (r: Vec<char>)
    ensures
        r@ == without_chars(v@, bad@),
{
    let mut r: Vec<char> = Vec::new();
    let mut i: usize = 0;
    while i < v.len()
        invariant
            i <= v@.len(),
            r@ == without_chars(v@.take(i as int), bad@),
        decreases v@.len() - i,
    {
        let c = v[i];
        let mut is_bad = false;
        let mut j: usize = 0;
        while j < bad.len()
            invariant
                j <= bad@.len(),
                is_bad == bad@.take(j as int).contains(c),
            decreases bad@.len() - j,
        {
            if bad[j] == c {
                is_bad = true;
            }
            proof {
                let t0 = bad@.take(j as int);
                let t1 = bad@.take(j + 1);
                assert(t1 =~= t0.push(bad@[j as int]));
                if bad@[j as int] == c {
                    assert(t1[j as int] == c);
                }
                if t1.contains(c) && bad@[j as int] != c {
                    let k = choose|k: int| 0 <= k < t1.len() && t1[k] == c;
                    assert(k < j);
                    assert(t0[k] == c);
                }
                if t0.contains(c) {
                    let k = choose|k: int| 0 <= k < t0.len() && t0[k] == c;
                    assert(t1[k] == c);
                }
            }
            j = j + 1;
        }
        proof {
            assert(bad@.take(bad@.len() as int) =~= bad@);
            assert(v@.take(i + 1).drop_last() =~= v@.take(i as int));
        }
        if !is_bad {
            r.push(c);
        }
        proof {
            assert(r@ =~= without_chars(v@.take(i + 1), bad@));
        }
        i = i + 1;
    }
    proof {
        assert(v@.take(v@.len() as int) =~= v@);
    }
    r
}

fn ends_with_ci_chars(v: &Vec<char>, suffix: &str) -> (r: bool)
    ensures
        r == ends_with_ci(v@, suffix@),
{
    let p = to_chars(suffix);
    if p.len() > v.len() {
        return false;
    }
    let start = v.len() - p.len();
    let mut j: usize = 0;
    while j < p.len()
        invariant
            p@ == suffix@,
            start + p.len() == v.len(),
            start + p@.len() == v@.len(),
            j <= p@.len(),
            forall|k: int| 0 <= k < j ==> lower_ascii(#[trigger] v@[v@.len() - p@.len() + k]) == p@[k],
        decreases p@.len() - j,
    {
        if to_lower_ascii(v[start + j]) != p[j] {
            assert(lower_ascii(v@[v@.len() - suffix@.len() + j]) != suffix@[j as int]);
            return false;
        }
        j = j + 1;
    }
    true
}

fn strip_suffix_ci_chars(v: Vec<char>, suffix: &str) -> (r: Vec<char>)
    ensures
        r@ == strip_suffix_ci(v@, suffix@),
{
    if ends_with_ci_chars(&v, suffix) {
        let n = v.len() - suffix.unicode_len();
        let mut r: Vec<char> = Vec::new();
        let mut i: usize = 0;
        while i < n
            invariant
                n <= v@.len(),
                i <= n,
                r@ == v@.take(i as int),
            decreases n - i,
        {
            r.push(v[i]);
            i = i + 1;
            assert(r@ =~= v@.take(i as int));
        }
        r
    } else {
        v
    }
}

/// The file name of a saved page, from the name suggested for it (see
/// [`spec_clean_filename`]).
pub fn clean_generated_filename(suggested: &str) -> (r: String)
    ensures
        r@ == spec_clean_filename(suggested@),
{
    let t = trim_string(suggested);
    let tv = to_chars(t.as_str());
    let quotes = vec!['"', '\'', '`'];
    assert(quotes@ =~= quote_chars());
    let n1 = remove_chars(&tv, &quotes);
    let n2 = strip_suffix_ci_chars(n1, ".html");
    let n3 = if ends_with_ci_chars(&n2, "-html") {
        strip_suffix_ci_chars(n2, "-html")
    } else {
        strip_suffix_ci_chars(n2, "_html")
    };
    let invalid = vec!['<', '>', ':', '"', '/', '\\', '|', '?', '*'];
    assert(invalid@ =~= invalid_file_chars());
    let n4 = remove_chars(&n3, &invalid);
    if n4.len() == 0 {
        owned("result.html")
    } else {
        let mut r = chars_to_string_range(&n4, 0, n4.len());
        assert(n4@.subrange(0, n4@.len() as int) =~= n4@);
        push_str(&mut r, ".html");
        r
    }
}

/// The request for a file name: an instruction followed by at most the
/// first 4000 characters of the content.
pub const FILENAME_INSTRUCTION: &'static str = "Generate a short, kebab-case filename (without extension) for the following content. Do NOT include 'html' in the name. The filename must be descriptive but concise (max 5 words). Output ONLY the filename, nothing else. No markdown, no quotes, no explanations.\n\nContent:\n";

/// Most characters of the content sent with the request.
pub const FILENAME_CONTEXT_LIMIT: usize = 4000;

pub open spec fn spec_filename_prompt(content: Seq<char>) -> Seq<char> {
    FILENAME_INSTRUCTION@ + (if content.len() > FILENAME_CONTEXT_LIMIT {
        content.take(FILENAME_CONTEXT_LIMIT as int)
    } else {
        content
    })
}

/// The prompt that asks a model to name a saved page.
pub fn filename_prompt(content: &str) -> (r: String)
    ensures
        r@ == spec_filename_prompt(content@),
{
    let v = to_chars(content);
    let n = if v.len() > FILENAME_CONTEXT_LIMIT { FILENAME_CONTEXT_LIMIT } else { v.len() };
    let head = chars_to_string_range(&v, 0, n);
    assert(head@ =~= (if content@.len() > FILENAME_CONTEXT_LIMIT {
        content@.take(FILENAME_CONTEXT_LIMIT as int)
    } else {
        content@
    }));
    let mut r = owned(FILENAME_INSTRUCTION);
    r.append(head.as_str());
    r
}

/// The text serde_json finds at `choices[0].message.content` of the JSON
/// reply `body`: `None` when the reply is not JSON or holds no string
/// there.
pub uninterp spec fn reply_content(body: Seq<char>) -> Option<Seq<char>>;

/// `serde_json::from_str::<serde_json::Value>`, then `get("choices")`,
/// `as_array`, `first`, `get("message")`, `get("content")` and `as_str`.
/// The contract names the result and says nothing more.
#[verifier::external_body]
fn completion_content(body: &str) -> (r: Option<String>)
    ensures
        match r {
            Some(s) => reply_content(body@) == Some(s@),
            None => reply_content(body@) is None,
        },
{
    let json = serde_json::from_str::<serde_json::Value>(body).ok()?;
    let choice = json.get("choices")?.as_array()?.first()?;
    choice.get("message")?.get("content")?.as_str().map(String::from)
}

/// The name a saved page gets from the reply to the naming request:
/// `result.html` when the reply holds no text.
pub open spec fn spec_reply_filename(content: Option<Seq<char>>) -> Seq<char> {
    match content {
        Some(c) => spec_clean_filename(c),
        None => "result.html"@,
    }
}

/// The file name from the text of the reply, where it holds one.
pub fn filename_from_content(content: Option<&str>) -> (r: String)
    ensures
        r@ == spec_reply_filename(match content {
            Some(c) => Some(c@),
            None => None,
        }),
{
    match content {
        Some(c) => clean_generated_filename(c),
        None => owned("result.html"),
    }
}

/// The file name for a saved page from the reply `body` of the naming
/// request.
pub fn filename_from_reply(body: &str) -> (r: String)
    ensures
        r@ == spec_reply_filename(reply_content(body@)),
{
    let content = completion_content(body);
    match content {
        Some(c) => filename_from_content(Some(c.as_str())),
        None => filename_from_content(None),
    }
}

} // verus!
