use topic_digest::render::markdown_to_html;

#[test]
fn heading_renders_to_h1() {
    assert_eq!(markdown_to_html("# hello"), "<h1>hello</h1>\n");
}

#[test]
fn render_is_deterministic() {
    let markdown = "# Digest\n\n- item one\n- item two\n\n[Learn more](https://example.org)\n";
    let first = markdown_to_html(markdown);
    let second = markdown_to_html(markdown);
    assert_eq!(first, second);
}

#[test]
fn strikethrough_extension_is_enabled() {
    let html = markdown_to_html("~~gone~~");
    assert!(html.contains("<del>gone</del>"));
}

#[test]
fn table_extension_is_enabled() {
    let html = markdown_to_html("| a | b |\n| --- | --- |\n| 1 | 2 |\n");
    assert!(html.contains("<table>"));
    assert!(html.contains("<td>1</td>"));
}

#[test]
fn empty_markdown_renders_to_empty_html() {
    assert_eq!(markdown_to_html(""), "");
}

#[test]
fn malformed_markdown_degrades_without_crashing() {
    let html = markdown_to_html("](broken [link ~~ | ###");
    let again = markdown_to_html("](broken [link ~~ | ###");
    assert_eq!(html, again);
}
