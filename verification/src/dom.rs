//! The parsed page and the selectors: what this library has from the crate
//! scraper. A page, an element and a selector are values that only scraper
//! can look into, so each of its answers gets a name here, and the rest of the
//! library is stated over those names.

use crate::text::text_view;
use scraper::{ElementRef, Html, Selector};
use vstd::prelude::*;
use vstd::string::StringSliceAdditionalSpecFns;
use vstd::utf8::encode_utf8;

verus! {

/// `Html` of scraper: a parsed page. It is handed on and never looked into.
#[verifier::external_type_specification]
#[verifier::external_body]
pub struct ExHtml(scraper::Html);

/// `Selector` of scraper: a pattern made ready for matching. It is handed on
/// and never looked into.
#[verifier::external_type_specification]
#[verifier::external_body]
pub struct ExSelector(scraper::Selector);

/// `ElementRef` of scraper: an element of a parsed page. It is handed on and
/// never looked into.
#[verifier::external_type_specification]
#[verifier::external_body]
pub struct ExElementRef<'a>(scraper::ElementRef<'a>);

/// The longest text, in bytes of UTF-8, that is handed to a parser of
/// scraper. The parsers keep text in buffers whose size is a 32-bit number
/// that is rounded up to a power of two, and one byte of a page can become
/// three bytes of text; a quarter of 2 GiB stays clear of both.
pub const MAX_TEXT_BYTES: usize = 0x2000_0000;

/// Whether a text is short enough to be handed to a parser of scraper.
pub open spec fn fits(text: Seq<char>) -> bool {
    encode_utf8(text).len() <= MAX_TEXT_BYTES
}

/// The length of a text in bytes of UTF-8.
pub fn byte_length(text: &str) -> (bytes: usize)
    ensures
        bytes == encode_utf8(text@).len(),
{
    text.as_bytes().len()
}

/// Decides whether a text is short enough to be handed to a parser of
/// scraper.
pub fn text_fits(text: &str) -> (short: bool)
    ensures
        short == fits(text@),
{
    byte_length(text) <= MAX_TEXT_BYTES
}

/// The tree that scraper builds from the text of a page.
pub uninterp spec fn parsed_document(page: Seq<char>) -> Html;

/// The selector that scraper makes of a pattern, and `None` where it makes
/// none of it.
pub uninterp spec fn compiled_selector(pattern: Seq<char>) -> Option<Selector>;

/// The elements of a page that match a selector, in the order in which
/// `Html::select` yields them.
pub uninterp spec fn document_matches(document: &Html, selector: Selector) -> Seq<ElementRef>;

/// The elements below `scope` that match a selector, in the order in which
/// `ElementRef::select` yields them: that of the page.
pub uninterp spec fn element_matches(scope: ElementRef, selector: Selector) -> Seq<ElementRef>;

/// The text below an element: what its text nodes hold, one after the other,
/// in the order of the page.
pub uninterp spec fn element_text(element: ElementRef) -> Seq<char>;

/// The value of an element's attribute, and `None` where it has none of that
/// name.
pub uninterp spec fn element_attr(element: ElementRef, name: Seq<char>) -> Option<Seq<char>>;

/// Calls `Html::parse_document` of scraper. Claimed: the tree depends on the
/// text alone. The call panics where a buffer of the parser would hold more
/// than 2 GiB; `requires` keeps those pages out.
#[verifier::external_body]
pub(crate) fn parse_document(page: &str) -> (document: Html)
    requires
        fits(page@),
    ensures
        document == parsed_document(page@),
{
    Html::parse_document(page)
}

/// Calls `Selector::parse` of scraper and drops what its error says.
/// Claimed: whether a pattern is a selector, and which, depends on the
/// pattern alone. The parser counts the lines of a pattern in a 32-bit
/// number; `requires` keeps out the patterns that could be too long for it.
#[verifier::external_body]
pub(crate) fn compile_selector(pattern: &str) -> (selector: Option<Selector>)
    requires
        fits(pattern@),
    ensures
        selector == compiled_selector(pattern@),
{
    Selector::parse(pattern).ok()
}

/// Calls `Html::select` of scraper and collects what it yields. Claimed: the
/// elements and their order depend on the page and the selector alone.
#[verifier::external_body]
pub(crate) fn select_in_document<'a>(
    document: &'a Html,
    selector: &Selector,
) -> (found: Vec<ElementRef<'a>>)
    ensures
        found@ == document_matches(document, *selector),
{
    document.select(selector).collect()
}

/// Calls `ElementRef::select` of scraper and collects what it yields.
/// Claimed: the elements and their order depend on the element and the
/// selector alone.
#[verifier::external_body]
pub(crate) fn select_in_element<'a>(
    scope: ElementRef<'a>,
    selector: &Selector,
) -> (found: Vec<ElementRef<'a>>)
    ensures
        found@ == element_matches(scope, *selector),
{
    scope.select(selector).collect()
}

/// Calls `ElementRef::text` of scraper and joins the pieces that it yields.
/// Claimed: the text depends on the element alone.
#[verifier::external_body]
pub(crate) fn text_of(element: ElementRef) -> (text: String)
    ensures
        text@ == element_text(element),
{
    element.text().collect()
}

/// Calls `ElementRef::attr` of scraper and copies the value. Claimed: the
/// value depends on the element and the name alone.
#[verifier::external_body]
pub(crate) fn attr_of(element: ElementRef, name: &str) -> (value: Option<String>)
    ensures
        text_view(value) == element_attr(element, name@),
{
    element.attr(name).map(String::from)
}

} // verus!
