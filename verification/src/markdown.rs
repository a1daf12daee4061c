//! Markdown rendering.

use vstd::prelude::*;

verus! {

/// The HTML fragment that pulldown-cmark writes for `markdown` when every
/// extension (tables, strikethrough, task lists, footnotes, ...) is enabled.
pub uninterp spec fn rendered_html(markdown: Seq<char>) -> Seq<char>;

/// Runs `pulldown_cmark::html::push_html` over `pulldown_cmark::Parser::new_ext`
/// with `Options::all()`, into a fresh string. The contract only names the
/// fragment: the renderer reads nothing but its input, so equal sources give
/// equal fragments.
#[verifier::external_body]
fn push_html(markdown: &str) -> (html: String)
    ensures
        html@ == rendered_html(markdown@),
{
    let mut html = String::new();
    let parser = pulldown_cmark::Parser::new_ext(markdown, pulldown_cmark::Options::all());
    pulldown_cmark::html::push_html(&mut html, parser);
    html
}

/// Renders a markdown source to an HTML fragment. Rendering never fails:
/// malformed markdown comes out as text.
pub fn render(markdown: &str) -> (html: String)
    ensures
        html@ == rendered_html(markdown@),
{
    push_html(markdown)
}

} // verus!
