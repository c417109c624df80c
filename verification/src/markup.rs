//! The hook that lets prose refer to classes and members by name: a link
//! without a target, such as `[Part.Size]`, is resolved by a link resolver.

use vstd::prelude::*;
use crate::links::{link_view, reference_target, LinkResolver};

verus! {

/// The text that `str::trim` returns for `s`: `s` without the white space at
/// its start and at its end.
pub uninterp spec fn trimmed(s: Seq<char>) -> Seq<char>;

/// Removes leading and trailing white space.
///
/// Calls `str::trim` of std. The contract only names the result, which is a
/// function of the text alone.
#[verifier::external_body]
fn trim_text(s: &str) -> (inner: &str)
    ensures
        inner@ == trimmed(s@),
{
    s.trim()
}

/// Resolves the text of a link that was written without a target: the text
/// is trimmed and handed to the resolver.
pub fn resolve_markup_link<R: LinkResolver>(resolver: &R, raw: &str) -> (link: Option<
    (String, String),
>)
    ensures
        link_view(link) == reference_target(resolver, trimmed(raw@)),
{
    resolver.resolve_reference(trim_text(raw))
}

/// What a resolver answers to the text of each link that was written
/// without a target: the link as `(url, title)`, or nothing.
pub open spec fn markup_links<R: LinkResolver>(resolver: &R) -> Map<
    Seq<char>,
    Option<(Seq<char>, Seq<char>)>,
> {
    Map::total(
        |raw: Seq<char>|
            match reference_target(resolver, trimmed(raw)) {
                Some(link) => Some((link.url, link.title)),
                None => None,
            },
    )
}

/// The HTML that the Markdown renderer gives for `input`, with tables
/// enabled, where `links` says what each link without a target resolves to.
pub uninterp spec fn markdown_html(
    input: Seq<char>,
    links: Map<Seq<char>, Option<(Seq<char>, Seq<char>)>>,
) -> Seq<char>;

/// Converts prose to HTML, with tables enabled and links without a target
/// resolved by `resolve_markup_link`.
///
/// Calls `pulldown_cmark::Parser::new_with_broken_link_callback` and
/// `pulldown_cmark::html::push_html`. The parser asks the callback for each
/// link whose target the prose does not define and otherwise works on the
/// text alone; the contract only names the HTML, as a function of the text
/// and of what the resolver answers.
#[verifier::external_body]
fn push_markdown_html<R: LinkResolver>(input: &str, resolver: &R) -> (html: String)
    ensures
        html@ == markdown_html(input@, markup_links(resolver)),
{
    let mut options = pulldown_cmark::Options::empty();
    options.insert(pulldown_cmark::Options::ENABLE_TABLES);
    let link_callback = |_norm: &str, raw: &str| resolve_markup_link(resolver, raw);
    let parser = pulldown_cmark::Parser::new_with_broken_link_callback(
        input,
        options,
        Some(&link_callback),
    );
    let mut output = String::new();
    pulldown_cmark::html::push_html(&mut output, parser);
    output
}

/// Renders the prose `input` as HTML. Where the prose holds a link without a
/// target, the link's text is resolved against `link_resolver`; a text that
/// does not resolve is left as the renderer leaves a broken link.
pub fn render_markdown<R: LinkResolver>(input: &str, link_resolver: &R) -> (html: String)
    ensures
        html@ == markdown_html(input@, markup_links(link_resolver)),
{
    push_markdown_html(input, link_resolver)
}

} // verus!
