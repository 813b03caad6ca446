use vstd::prelude::*;

verus! {

/// The HTML that the markdown renderer produces for a markdown text with
/// the table and strikethrough extensions enabled: a function of the text's
/// characters alone.
pub uninterp spec fn html_of(markdown: Seq<char>) -> Seq<char>;

/// Relies on pulldown_cmark::Parser::new_ext and pulldown_cmark::html::push_html:
/// parsing a markdown text with tables and strikethrough enabled and
/// emitting HTML for its events is pure and total — it never fails, not
/// even on malformed markdown — and its output depends on the markdown
/// text alone.
#[verifier::external_body]
fn render_markdown(markdown: &str) -> (html: String)
    ensures
        html@ == html_of(markdown@),
{
    let mut options = pulldown_cmark::Options::empty();
    options.insert(pulldown_cmark::Options::ENABLE_STRIKETHROUGH);
    options.insert(pulldown_cmark::Options::ENABLE_TABLES);
    let parser = pulldown_cmark::Parser::new_ext(markdown, options);
    let mut html_output = String::new();
    pulldown_cmark::html::push_html(&mut html_output, parser);
    html_output
}

/// Renders markdown to HTML with the table and strikethrough extensions
/// enabled; all other constructs keep baseline semantics. Total: malformed
/// markdown renders degraded, never a crash.
pub fn markdown_to_html(markdown: &str) -> (html: String)
    ensures
        html@ == html_of(markdown@),
{
    render_markdown(markdown)
}

/// Determinism of the renderer: renderings of equal markdown texts are
/// byte-identical, on any two runs over any two values.
pub proof fn lemma_render_deterministic(first: Seq<char>, second: Seq<char>)
    requires
        first == second,
    ensures
        html_of(first) == html_of(second),
{
}

} // verus!
