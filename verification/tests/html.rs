use overlay_core::html::{
    content_needs_recreation, document_write_script, escape_html_text, escape_js_template,
    extract_body_content, get_theme_css, grid_body_html, grid_head_html, html_data_url,
    inject_gridjs, inject_scrollbar_css, inject_storage_polyfill, is_html_content,
    is_html_fragment, plan_content_update, stream_script, wrap_html_fragment, wrap_words_html,
    ContentUpdate, GridAssets, DARK_THEME_CSS, FRAGMENT_PREFIX, FRAGMENT_SUFFIX,
    LIGHT_THEME_CSS, SCROLLBAR_CSS, STORAGE_POLYFILL, STREAM_SCRIPT_CLOSE, STREAM_SCRIPT_OPEN,
};

fn assets() -> GridAssets {
    GridAssets {
        css_url: "grid.css".to_string(),
        js_url: "grid.js".to_string(),
        css: ".g{}".to_string(),
        init_script: "initGrid();".to_string(),
    }
}

#[test]
fn html_special_characters_are_escaped() {
    assert_eq!(escape_html_text("a<b>&\"c'"), "a&lt;b&gt;&amp;&quot;c&#39;");
    assert_eq!(escape_html_text("plain"), "plain");
    assert_eq!(escape_html_text(""), "");
}

#[test]
fn words_are_wrapped_in_spans() {
    assert_eq!(
        wrap_words_html("Hi there"),
        "<span class=\"word\">Hi</span> <span class=\"word\">there</span>"
    );
    assert_eq!(wrap_words_html("a  b"), "<span class=\"word\">a</span>  <span class=\"word\">b</span>");
    assert_eq!(wrap_words_html("<x>"), "<span class=\"word\">&lt;x&gt;</span>");
    assert_eq!(wrap_words_html(""), "");
}

#[test]
fn fragments_and_documents_are_recognised() {
    assert!(is_html_fragment("<script>alert(1)</script>"));
    assert!(is_html_fragment("<STYLE>p{}</STYLE>"));
    assert!(!is_html_fragment("<html><script></script></html>"));
    assert!(!is_html_fragment("# Title"));
    assert!(is_html_content("  <!DOCTYPE html><html></html>"));
    assert!(is_html_content("<head><title>x</title></head>"));
    assert!(is_html_content("<style>b{}</style>"));
    assert!(!is_html_content("Some *markdown* text"));
}

#[test]
fn pages_with_storage_scripts_are_recreated() {
    assert!(content_needs_recreation("<script>localStorage.x = 1</script>"));
    assert!(content_needs_recreation("<SCRIPT>let a = 1;</SCRIPT>"));
    assert!(!content_needs_recreation("<script>alert(1)</script>"));
    assert!(!content_needs_recreation("let me know"));
}

#[test]
fn a_fragment_is_wrapped_in_a_document() {
    let r = wrap_html_fragment("<b>x</b>");
    assert_eq!(r, format!("{}<b>x</b>{}", FRAGMENT_PREFIX, FRAGMENT_SUFFIX));
}

#[test]
fn storage_stand_in_goes_after_the_head_tag() {
    let r = inject_storage_polyfill("<html><head><title>t</title></head></html>");
    assert_eq!(r, format!("<html><head>{}<title>t</title></head></html>", STORAGE_POLYFILL));
    let attrs = inject_storage_polyfill("<html lang=\"en\"><body></body></html>");
    assert_eq!(attrs, format!("<html lang=\"en\">{}<body></body></html>", STORAGE_POLYFILL));
    let bare = inject_storage_polyfill("<p>hi</p>");
    assert_eq!(bare, format!("{}<p>hi</p>", STORAGE_POLYFILL));
}

#[test]
fn a_fragment_gets_the_stand_in_after_wrapping() {
    let r = inject_storage_polyfill("<script>go()</script>");
    assert!(r.starts_with("<!DOCTYPE html>\n<html>\n<head>"));
    assert!(r.contains(STORAGE_POLYFILL));
    assert!(r.ends_with("<script>go()</script>\n</body>\n</html>"));
}

#[test]
fn table_library_is_added_only_to_pages_with_tables() {
    let a = assets();
    let plain = "<html><head></head><body><p>x</p></body></html>";
    assert_eq!(inject_gridjs(plain, &a), plain);
    let with_table = "<html><head></head><body><table></table></body></html>";
    let expected = format!(
        "<html><head>{}</head><body><table></table>{}</body></html>",
        grid_head_html(&a),
        grid_body_html(&a)
    );
    assert_eq!(inject_gridjs(with_table, &a), expected);
    assert_eq!(grid_body_html(&a), "<script>initGrid();</script>");
    assert_eq!(
        grid_head_html(&a),
        "<link href=\"grid.css\" rel=\"stylesheet\" />\n        <script src=\"grid.js\"></script>\n        <style>.g{}</style>"
    );
}

#[test]
fn scrollbar_style_goes_before_the_end_of_the_head() {
    assert_eq!(
        inject_scrollbar_css("<head></head><body></body>"),
        format!("<head>{}</head><body></body>", SCROLLBAR_CSS)
    );
    assert_eq!(inject_scrollbar_css("<body>x</body>"), format!("{}<body>x</body>", SCROLLBAR_CSS));
    assert_eq!(inject_scrollbar_css("x"), format!("{}x", SCROLLBAR_CSS));
}

#[test]
fn theme_styles() {
    assert_eq!(get_theme_css(true), DARK_THEME_CSS);
    assert_eq!(get_theme_css(false), LIGHT_THEME_CSS);
}

#[test]
fn javascript_template_escaping() {
    assert_eq!(escape_js_template("a`b\\c${d}$e"), "a\\`b\\\\c\\${d}$e");
}

#[test]
fn body_content_is_extracted() {
    assert_eq!(extract_body_content("<html><body><p>x</p></body></html>"), "<p>x</p>");
    assert_eq!(extract_body_content("<p>no body</p>"), "<p>no body</p>");
    assert_eq!(extract_body_content("<body>open"), "<body>open");
}

#[test]
fn data_url_percent_encodes_the_page() {
    assert_eq!(html_data_url("a b"), "data:text/html,a%20b");
    assert_eq!(html_data_url("<p>é</p>"), "data:text/html,%3Cp%3E%C3%A9%3C%2Fp%3E");
    assert_eq!(html_data_url("safe-._~"), "data:text/html,safe-._~");
}

#[test]
fn loaded_views_are_updated_by_writing_or_rebuilt() {
    assert_eq!(
        document_write_script("<p>`x`</p>"),
        "document.open(); document.write(`<p>\\`x\\`</p>`); document.close();"
    );
    match plan_content_update("<p>plain</p>") {
        ContentUpdate::Write(s) => assert_eq!(s, document_write_script("<p>plain</p>")),
        ContentUpdate::Recreate => panic!("plain pages are written in place"),
    }
    assert!(matches!(
        plan_content_update("<script>var a = 1;</script>"),
        ContentUpdate::Recreate
    ));
}

#[test]
fn streaming_sends_only_the_body() {
    let s = stream_script("<html><body><p>new `words`</p></body></html>");
    assert_eq!(s, format!("{}<p>new \\`words\\`</p>{}", STREAM_SCRIPT_OPEN, STREAM_SCRIPT_CLOSE));
    assert!(STREAM_SCRIPT_OPEN.ends_with("const newContent = `"));
}

#[test]
fn escaped_text_holds_no_markup() {
    let e = escape_html_text("<a href=\"x\" onclick='y'>&</a>");
    assert!(!e.contains('<') && !e.contains('>') && !e.contains('"') && !e.contains('\''));
}
