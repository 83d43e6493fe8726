//! Assembling the readable-text artifact: the main content of a page
//! rendered as Markdown, optionally under a metadata header naming the
//! source.
//!
//! Rendering HTML as Markdown is the `mdka` crate's work, behind one trusted
//! wrapper; choosing the content region, the title and the header layout is
//! verified.

use vstd::prelude::*;
use vstd::string::StringExecFns;
use crate::html::extract_main_content;
use crate::html::extract_title;
use crate::html::spec_main_content;
use crate::html::spec_title;

verus! {

/// The Markdown rendering of the given HTML fragment.
pub uninterp spec fn markdown_of(html: Seq<char>) -> Seq<char>;

/// Relies on mdka::html_to_markdown: the rendered Markdown depends on the
/// HTML text alone.
#[verifier::external_body]
fn render_markdown(html: &str) -> (r: String)
    ensures
        r@ == markdown_of(html@),
{
    mdka::html_to_markdown(html)
}

/// The document's extracted title, or `Untitled` when the cascade found
/// none.
pub open spec fn spec_title_or_untitled(h: Seq<char>) -> Seq<char> {
    match spec_title(h) {
        Some(t) => t,
        None => "Untitled"@,
    }
}

/// The Markdown produced for a document: the rendering of its main content,
/// preceded, when a source URL is given, by a header holding the extracted
/// title and a link to the source.
pub open spec fn spec_html_to_markdown(h: Seq<char>, base_url: Option<Seq<char>>) -> Seq<char> {
    let body = markdown_of(spec_main_content(h));
    match base_url {
        Some(u) => "# "@ + spec_title_or_untitled(h) + "\n\n*Source: ["@ + u + "]("@ + u
            + ")*\n\n---\n\n"@ + body,
        None => body,
    }
}

/// Converts an HTML document to Markdown: extracts the main content, renders
/// it, and, when a base URL is given, prepends the metadata header.
pub fn html_to_markdown(html: &str, base_url: Option<&str>) -> (r: String)
    ensures
        base_url is None ==> r@ == spec_html_to_markdown(html@, None),
        base_url is Some ==> r@ == spec_html_to_markdown(html@, Some((base_url->Some_0)@)),
{
    let main_content = extract_main_content(html);
    let body = render_markdown(main_content.as_str());
    match base_url {
        Some(u) => {
            let mut out = String::new();
            out.append("# ");
            match extract_title(html) {
                Some(t) => out.append(t.as_str()),
                None => out.append("Untitled"),
            }
            out.append("\n\n*Source: [");
            out.append(u);
            out.append("](");
            out.append(u);
            out.append(")*\n\n---\n\n");
            out.append(body.as_str());
            proof {
                assert(out@ =~= spec_html_to_markdown(html@, Some(u@)));
            }
            out
        },
        None => body,
    }
}

} // verus!
