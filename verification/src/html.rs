//! Reading the query site's pages with the `scraper` crate.
//!
//! Each page is parsed as a whole HTML document by `scraper::Html::parse_document`
//! and searched with CSS selectors parsed by `scraper::Selector::parse`. What such a
//! search returns takes an HTML parser and a selector engine to state, and depends on
//! the page and the selectors alone, so it is given a name below; the functions of
//! this crate state what they do with it.

use scraper::{Html, Selector};
use vstd::prelude::*;

verus! {

/// The text (every text node below it, joined) of the first element of the document
/// `page` that the CSS selector `selector` selects; `None` when no element matches or
/// `selector` does not parse. "First" and the order of the text nodes are those of the
/// parse tree, which the HTML parser may make differ from the order in the source, as
/// for content it moves out of a malformed table.
pub uninterp spec fn html_first_text(page: Seq<char>, selector: Seq<char>) -> Option<Seq<char>>;

/// The value of the attribute `attr` of the first element, in the order of the parse
/// tree, of the document `page` that the CSS selector `selector` selects; `None` when no element matches, when
/// that element has no such attribute, or when `selector` does not parse.
pub uninterp spec fn html_first_attr(page: Seq<char>, selector: Seq<char>, attr: Seq<char>) -> Option<
    Seq<char>,
>;

/// One entry for each element of the document `page` that the CSS selector `cell`
/// selects, in the order of the parse tree (not always that of the source): the text
/// of the first element below it that `first` selects and the text of the first
/// element below it that `second` selects (`None` where nothing matches). No entry at all when one of the selectors does not parse.
pub uninterp spec fn html_cell_texts(
    page: Seq<char>,
    cell: Seq<char>,
    first: Seq<char>,
    second: Seq<char>,
) -> Seq<(Option<Seq<char>>, Option<Seq<char>>)>;

/// Parses `page` with `scraper::Html::parse_document`, `selector` with
/// `scraper::Selector::parse`, and returns the text of the first match
/// (`ElementRef::text` collected). Trusted: the result is `html_first_text` of the
/// arguments; a selector that does not parse is read as matching nothing.
#[verifier::external_body]
pub(crate) fn first_text(page: &str, selector: &str) -> (r: Option<String>)
    ensures
        r.deep_view() == html_first_text(page@, selector@),
{
    let document = Html::parse_document(page);
    match Selector::parse(selector) {
        Ok(selector) => document.select(&selector).next().map(|e| e.text().collect::<String>()),
        Err(_) => None,
    }
}

/// Parses `page` with `scraper::Html::parse_document`, `selector` with
/// `scraper::Selector::parse`, and returns the attribute `attr` of the first match
/// (`Element::attr`). Trusted: the result is `html_first_attr` of the arguments; a
/// selector that does not parse is read as matching nothing.
#[verifier::external_body]
pub(crate) fn first_attr(page: &str, selector: &str, attr: &str) -> (r: Option<String>)
    ensures
        r.deep_view() == html_first_attr(page@, selector@, attr@),
{
    let document = Html::parse_document(page);
    match Selector::parse(selector) {
        Ok(selector) => document.select(&selector).next().and_then(
            |e| e.value().attr(attr).map(|v| v.to_string()),
        ),
        Err(_) => None,
    }
}

/// Parses `page` with `scraper::Html::parse_document` and the three selectors with
/// `scraper::Selector::parse`; for each element that `cell` selects it returns the
/// texts of the first elements below it that `first` and `second` select
/// (`ElementRef::select`, `ElementRef::text`). Trusted: the result is
/// `html_cell_texts` of the arguments; a selector that does not parse gives no entry.
#[verifier::external_body]
pub(crate) fn cell_texts(page: &str, cell: &str, first: &str, second: &str) -> (r: Vec<
    (Option<String>, Option<String>),
>)
    ensures
        r.deep_view() == html_cell_texts(page@, cell@, first@, second@),
{
    let document = Html::parse_document(page);
    let mut cells = Vec::new();
    if let (Ok(cell), Ok(first), Ok(second)) = (Selector::parse(cell), Selector::parse(first), Selector::parse(second)) {
        for c in document.select(&cell) {
            let a = c.select(&first).next().map(|e| e.text().collect::<String>());
            let b = c.select(&second).next().map(|e| e.text().collect::<String>());
            cells.push((a, b));
        }
    }
    cells
}

} // verus!
