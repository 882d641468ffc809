use overlay_core::html::{GridAssets, DARK_THEME_CSS, LIGHT_THEME_CSS, SCROLLBAR_CSS, STORAGE_POLYFILL};
use overlay_core::markdown::{
    clean_generated_filename, filename_from_content, filename_from_reply, filename_prompt,
    markdown_page_html, markdown_to_html, quote_page_html, refining_context_text,
    FILENAME_INSTRUCTION, PageAssets, PAGE_BODY_OPEN, PAGE_BODY_SEP,
};

fn assets() -> PageAssets {
    PageAssets {
        font_css: "@font-face{}".to_string(),
        grid: GridAssets {
            css_url: "g.css".to_string(),
            js_url: "g.js".to_string(),
            css: "".to_string(),
            init_script: "grid()".to_string(),
        },
    }
}

fn body_of(page: &str) -> &str {
    let start = page.find(PAGE_BODY_OPEN).unwrap() + PAGE_BODY_OPEN.len();
    let end = page.rfind(PAGE_BODY_SEP).unwrap();
    &page[start..end]
}

#[test]
fn markdown_words_are_rendered_in_spans() {
    let page = markdown_to_html("Hello world", false, "", true, &assets());
    assert!(page.contains(DARK_THEME_CSS));
    assert!(page.contains("<style>@font-face{}</style>"));
    assert_eq!(
        body_of(&page),
        "<p><span class=\"word\">Hello</span> <span class=\"word\">world</span></p>\n"
    );
}

#[test]
fn soft_breaks_become_line_breaks() {
    let page = markdown_to_html("one\ntwo", false, "", false, &assets());
    assert!(page.contains(LIGHT_THEME_CSS));
    assert_eq!(
        body_of(&page),
        "<p><span class=\"word\">one</span><br />\n<span class=\"word\">two</span></p>\n"
    );
}

#[test]
fn code_blocks_keep_their_text() {
    let page = markdown_to_html("```\nlet x = 1;\n```", false, "", true, &assets());
    assert_eq!(body_of(&page), "<pre><code>let x = 1;\n</code></pre>\n");
}

#[test]
fn tables_bring_the_table_library() {
    let page = markdown_to_html("| a | b |\n|---|---|\n| 1 | 2 |", false, "", true, &assets());
    assert!(page.contains("<table>"));
    assert!(page.contains("<script src=\"g.js\"></script>"));
    assert!(page.contains("<script>grid()</script>"));
    assert!(page.contains("<td>1</td>"));
    let plain = markdown_to_html("no table", false, "", true, &assets());
    assert!(!plain.contains("g.js"));
}

#[test]
fn raw_html_passes_through_with_helpers() {
    let page = markdown_to_html("<html><head></head><body>x</body></html>", false, "", true, &assets());
    assert_eq!(
        page,
        format!("<html><head>{}{}</head><body>x</body></html>", STORAGE_POLYFILL, SCROLLBAR_CSS)
    );
}

#[test]
fn refining_shows_the_context_quote() {
    let page = markdown_to_html("ignored", true, "Summarize", true, &assets());
    assert_eq!(page, quote_page_html(true, "@font-face{}", "Summarize"));
    assert!(page.contains("Summarize\n    \n</body>\n</html>"));
    assert_eq!(refining_context_text("Prompt", ""), "Prompt");
    assert_eq!(refining_context_text("Prompt", "input"), "Prompt\n\ninput");
}

#[test]
fn page_around_a_rendered_body() {
    let a = assets();
    let page = markdown_page_html(false, &a, "<p>x</p>");
    assert!(page.starts_with("<!DOCTYPE html>"));
    assert!(page.ends_with("<p>x</p>\n    \n</body>\n</html>"));
}

#[test]
fn generated_file_names_are_cleaned() {
    assert_eq!(clean_generated_filename("  \"my-notes.HTML\"  "), "my-notes.html");
    assert_eq!(clean_generated_filename("report_html"), "report.html");
    assert_eq!(clean_generated_filename("a/b:c?"), "abc.html");
    assert_eq!(clean_generated_filename("``"), "result.html");
    assert_eq!(clean_generated_filename("summary-html.html"), "summary.html");
}

#[test]
fn the_naming_prompt_holds_at_most_four_thousand_characters() {
    let short = filename_prompt("abc");
    assert_eq!(short, format!("{}abc", FILENAME_INSTRUCTION));
    let long: String = "x".repeat(4100);
    let p = filename_prompt(&long);
    assert_eq!(p.len(), FILENAME_INSTRUCTION.len() + 4000);
    assert!(FILENAME_INSTRUCTION.ends_with("\n\nContent:\n"));
}

#[test]
fn the_file_name_comes_from_the_model_reply() {
    let reply = r#"{"choices":[{"message":{"role":"assistant","content":" weekly-report "}}]}"#;
    assert_eq!(filename_from_reply(reply), "weekly-report.html");
    assert_eq!(filename_from_reply(r#"{"choices":[]}"#), "result.html");
    assert_eq!(filename_from_reply("not json"), "result.html");
    assert_eq!(filename_from_content(None), "result.html");
    assert_eq!(filename_from_content(Some("x")), "x.html");
}
