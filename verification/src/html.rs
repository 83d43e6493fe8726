//! Picking the main content region and the title out of an arbitrary HTML
//! document, by ordered cascades of selector heuristics.
//!
//! Locating elements inside markup is the `select` crate's work; each query
//! the cascades need stands behind one trusted wrapper whose result is a
//! named function of the markup and the selector alone. The cascades
//! themselves, and their first-match-wins order, are verified.

use vstd::prelude::*;
use crate::chars::chars_of_str;
use crate::chars::spec_trim;
use crate::chars::string_of_chars;
use crate::chars::trim_chars;

verus! {

/// The outer HTML of the first element with the given tag name, if any.
pub uninterp spec fn tag_html_of(html: Seq<char>, tag: Seq<char>) -> Option<Seq<char>>;

/// Relies on select's Document::from, Document::find with the Name
/// predicate, and Node::html: the first element with the tag name, and its
/// markup, depend on the document text and the tag name alone.
#[verifier::external_body]
fn find_tag_html(html: &str, tag: &str) -> (r: Option<String>)
    ensures
        r is Some <==> tag_html_of(html@, tag@) is Some,
        r is Some ==> (r->Some_0)@ == tag_html_of(html@, tag@)->Some_0,
{
    let document = select::document::Document::from(html);
    document.find(select::predicate::Name(tag)).next().map(|element| element.html())
}

/// The concatenated text of the first element with the given tag name.
pub uninterp spec fn tag_text_of(html: Seq<char>, tag: Seq<char>) -> Option<Seq<char>>;

/// Relies on select's Document::from, Document::find with the Name
/// predicate, and Node::text: the first element with the tag name, and its
/// text, depend on the document text and the tag name alone.
#[verifier::external_body]
fn find_tag_text(html: &str, tag: &str) -> (r: Option<String>)
    ensures
        r is Some <==> tag_text_of(html@, tag@) is Some,
        r is Some ==> (r->Some_0)@ == tag_text_of(html@, tag@)->Some_0,
{
    let document = select::document::Document::from(html);
    document.find(select::predicate::Name(tag)).next().map(|element| element.text())
}

/// The outer HTML of the first element whose attribute `name` equals
/// `value`, if any.
pub uninterp spec fn attr_html_of(html: Seq<char>, name: Seq<char>, value: Seq<char>) -> Option<
    Seq<char>,
>;

/// Relies on select's Document::from, Document::find with the Attr
/// predicate, and Node::html: the first element whose attribute has exactly
/// the given value, and its markup, depend on the document text and the
/// attribute pair alone.
#[verifier::external_body]
fn find_attr_html(html: &str, name: &str, value: &str) -> (r: Option<String>)
    ensures
        r is Some <==> attr_html_of(html@, name@, value@) is Some,
        r is Some ==> (r->Some_0)@ == attr_html_of(html@, name@, value@)->Some_0,
{
    let document = select::document::Document::from(html);
    document.find(select::predicate::Attr(name, value)).next().map(|element| element.html())
}

/// The concatenated text of the first element whose attribute `name` equals
/// `value`, if any.
pub uninterp spec fn attr_text_of(html: Seq<char>, name: Seq<char>, value: Seq<char>) -> Option<
    Seq<char>,
>;

/// Relies on select's Document::from, Document::find with the Attr
/// predicate, and Node::text: the first element whose attribute has exactly
/// the given value, and its text, depend on the document text and the
/// attribute pair alone.
#[verifier::external_body]
fn find_attr_text(html: &str, name: &str, value: &str) -> (r: Option<String>)
    ensures
        r is Some <==> attr_text_of(html@, name@, value@) is Some,
        r is Some ==> (r->Some_0)@ == attr_text_of(html@, name@, value@)->Some_0,
{
    let document = select::document::Document::from(html);
    document.find(select::predicate::Attr(name, value)).next().map(|element| element.text())
}

/// The `content` attribute of the first element whose attribute `name`
/// equals `value`: nothing when no element matches or the matching element
/// has no `content` attribute.
pub uninterp spec fn attr_content_of(html: Seq<char>, name: Seq<char>, value: Seq<char>) -> Option<
    Seq<char>,
>;

/// Relies on select's Document::from, Document::find with the Attr
/// predicate, and Node::attr: the first element whose attribute has exactly
/// the given value, and its `content` attribute, depend on the document text
/// and the attribute pair alone.
#[verifier::external_body]
fn find_attr_content(html: &str, name: &str, value: &str) -> (r: Option<String>)
    ensures
        r is Some <==> attr_content_of(html@, name@, value@) is Some,
        r is Some ==> (r->Some_0)@ == attr_content_of(html@, name@, value@)->Some_0,
{
    let document = select::document::Document::from(html);
    document
        .find(select::predicate::Attr(name, value))
        .next()
        .and_then(|element| element.attr("content"))
        .map(|content| content.to_string())
}

/// The main-content cascade, first match wins: the `main`, `article` and
/// `body` tags in turn; then the content-bearing class names in a fixed
/// order; then the element whose id is `content`; and, when nothing at all
/// matched (so the document has no `body` element either), the unmodified
/// input.
pub open spec fn spec_main_content(h: Seq<char>) -> Seq<char> {
    if tag_html_of(h, "main"@) is Some {
        tag_html_of(h, "main"@)->Some_0
    } else if tag_html_of(h, "article"@) is Some {
        tag_html_of(h, "article"@)->Some_0
    } else if tag_html_of(h, "body"@) is Some {
        tag_html_of(h, "body"@)->Some_0
    } else if attr_html_of(h, "class"@, "main-content"@) is Some {
        attr_html_of(h, "class"@, "main-content"@)->Some_0
    } else if attr_html_of(h, "class"@, "content"@) is Some {
        attr_html_of(h, "class"@, "content"@)->Some_0
    } else if attr_html_of(h, "class"@, "post-content"@) is Some {
        attr_html_of(h, "class"@, "post-content"@)->Some_0
    } else if attr_html_of(h, "class"@, "entry-content"@) is Some {
        attr_html_of(h, "class"@, "entry-content"@)->Some_0
    } else if attr_html_of(h, "class"@, "article-content"@) is Some {
        attr_html_of(h, "class"@, "article-content"@)->Some_0
    } else if attr_html_of(h, "id"@, "content"@) is Some {
        attr_html_of(h, "id"@, "content"@)->Some_0
    } else {
        h
    }
}

/// Extracts the main content region of an HTML document. Never fails: when
/// no heuristic matches, the whole input comes back unchanged.
pub fn extract_main_content(html: &str) -> (r: String)
    ensures
        r@ == spec_main_content(html@),
{
    if let Some(found) = find_tag_html(html, "main") {
        return found;
    }
    if let Some(found) = find_tag_html(html, "article") {
        return found;
    }
    if let Some(found) = find_tag_html(html, "body") {
        return found;
    }
    if let Some(found) = find_attr_html(html, "class", "main-content") {
        return found;
    }
    if let Some(found) = find_attr_html(html, "class", "content") {
        return found;
    }
    if let Some(found) = find_attr_html(html, "class", "post-content") {
        return found;
    }
    if let Some(found) = find_attr_html(html, "class", "entry-content") {
        return found;
    }
    if let Some(found) = find_attr_html(html, "class", "article-content") {
        return found;
    }
    if let Some(found) = find_attr_html(html, "id", "content") {
        return found;
    }
    let chars = chars_of_str(html);
    string_of_chars(&chars)
}

/// The trimmed text of the first element with the given tag name, provided
/// it is non-empty.
pub open spec fn tag_title_candidate(h: Seq<char>, tag: Seq<char>) -> Option<Seq<char>> {
    match tag_text_of(h, tag) {
        Some(t) => if spec_trim(t).len() > 0 {
            Some(spec_trim(t))
        } else {
            None
        },
        None => None,
    }
}

/// The trimmed text of the first element whose attribute `name` equals
/// `value`, provided it is non-empty.
pub open spec fn attr_title_candidate(h: Seq<char>, name: Seq<char>, value: Seq<char>) -> Option<
    Seq<char>,
> {
    match attr_text_of(h, name, value) {
        Some(t) => if spec_trim(t).len() > 0 {
            Some(spec_trim(t))
        } else {
            None
        },
        None => None,
    }
}

/// The title cascade, first match wins: the `h1` tag's trimmed text, then
/// the `title` tag's; then the Open Graph and Twitter meta titles, taken
/// verbatim; then the title-bearing class names in a fixed order; and
/// nothing when no heuristic found a candidate.
pub open spec fn spec_title(h: Seq<char>) -> Option<Seq<char>> {
    if tag_title_candidate(h, "h1"@) is Some {
        tag_title_candidate(h, "h1"@)
    } else if tag_title_candidate(h, "title"@) is Some {
        tag_title_candidate(h, "title"@)
    } else if attr_content_of(h, "property"@, "og:title"@) is Some {
        attr_content_of(h, "property"@, "og:title"@)
    } else if attr_content_of(h, "name"@, "twitter:title"@) is Some {
        attr_content_of(h, "name"@, "twitter:title"@)
    } else if attr_title_candidate(h, "class"@, "title"@) is Some {
        attr_title_candidate(h, "class"@, "title"@)
    } else if attr_title_candidate(h, "class"@, "post-title"@) is Some {
        attr_title_candidate(h, "class"@, "post-title"@)
    } else if attr_title_candidate(h, "class"@, "entry-title"@) is Some {
        attr_title_candidate(h, "class"@, "entry-title"@)
    } else if attr_title_candidate(h, "class"@, "article-title"@) is Some {
        attr_title_candidate(h, "class"@, "article-title"@)
    } else {
        None
    }
}

/// Trims the text and keeps it only when something is left.
fn nonempty_trimmed(text: String) -> (r: Option<String>)
    ensures
        r is Some <==> spec_trim(text@).len() > 0,
        r is Some ==> (r->Some_0)@ == spec_trim(text@),
{
    let chars = chars_of_str(text.as_str());
    let trimmed = trim_chars(&chars);
    if trimmed.len() > 0 {
        Some(string_of_chars(&trimmed))
    } else {
        None
    }
}

/// Extracts a title from an HTML document, or nothing when every heuristic
/// of the cascade comes up empty.
pub fn extract_title(html: &str) -> (r: Option<String>)
    ensures
        r is Some <==> spec_title(html@) is Some,
        r is Some ==> (r->Some_0)@ == spec_title(html@)->Some_0,
{
    if let Some(text) = find_tag_text(html, "h1") {
        if let Some(title) = nonempty_trimmed(text) {
            return Some(title);
        }
    }
    if let Some(text) = find_tag_text(html, "title") {
        if let Some(title) = nonempty_trimmed(text) {
            return Some(title);
        }
    }
    if let Some(content) = find_attr_content(html, "property", "og:title") {
        return Some(content);
    }
    if let Some(content) = find_attr_content(html, "name", "twitter:title") {
        return Some(content);
    }
    if let Some(text) = find_attr_text(html, "class", "title") {
        if let Some(title) = nonempty_trimmed(text) {
            return Some(title);
        }
    }
    if let Some(text) = find_attr_text(html, "class", "post-title") {
        if let Some(title) = nonempty_trimmed(text) {
            return Some(title);
        }
    }
    if let Some(text) = find_attr_text(html, "class", "entry-title") {
        if let Some(title) = nonempty_trimmed(text) {
            return Some(title);
        }
    }
    if let Some(text) = find_attr_text(html, "class", "article-title") {
        if let Some(title) = nonempty_trimmed(text) {
            return Some(title);
        }
    }
    None
}

} // verus!
