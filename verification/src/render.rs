//! Markdown to HTML, with a fixed set of extensions.
//!
//! The conversion itself is comrak's. This module fixes which of its
//! extensions are switched on and leaves every other option at its default.

use vstd::prelude::*;

verus! {

/// Whether `~~text~~` is rendered as struck through.
pub const STRIKETHROUGH: bool = true;

/// Whether pipe tables are rendered as tables.
pub const TABLE: bool = true;

/// Whether `- [ ]` and `- [x]` list items are rendered with a checkbox.
pub const TASKLIST: bool = true;

/// The HTML that comrak renders `markdown` to, with the three named
/// extensions switched as given and every other option at its default.
pub uninterp spec fn comrak_html(
    markdown: Seq<char>,
    strikethrough: bool,
    table: bool,
    tasklist: bool,
) -> Seq<char>;

/// The HTML that the viewer shows for `markdown`.
pub open spec fn rendered(markdown: Seq<char>) -> Seq<char> {
    comrak_html(markdown, STRIKETHROUGH, TABLE, TASKLIST)
}

/// Calls `comrak::markdown_to_html` with default options but for the three
/// extension switches.
///
/// Trusted: the result is taken to depend on the text and the three
/// switches alone. With the render options at their defaults comrak writes no
/// tag with more than one attribute taken from a hash map, registers no
/// plugin and reads nothing but its arguments.
/// comrak does not document that it returns for every text: it asserts
/// invariants of its own while it parses task items and table cells, and no
/// text is known that breaks one.
#[verifier::external_body]
fn markdown_to_html(content: &str, strikethrough: bool, table: bool, tasklist: bool) -> (html: String)
    ensures
        html@ == comrak_html(content@, strikethrough, table, tasklist),
{
    let mut options = comrak::Options::default();
    options.extension.strikethrough = strikethrough;
    options.extension.table = table;
    options.extension.tasklist = tasklist;
    comrak::markdown_to_html(content, &options)
}

/// Renders markdown text to HTML for display.
///
/// Strikethrough, tables and task lists are enabled. Nothing is sanitized:
/// containing the HTML is the display layer's concern.
pub fn parse_markdown(content: String) -> (html: String)
    ensures
        html@ == rendered(content@),
{
    markdown_to_html(content.as_str(), STRIKETHROUGH, TABLE, TASKLIST)
}

} // verus!
