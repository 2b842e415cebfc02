//! What is read out of a page: the calls into the HTML parser and the
//! pattern matcher, each from text to text.
//!
//! Nothing here is proved. Every function states, over a name of its own,
//! that its result depends on its arguments alone; what the result is on a
//! given page is decided by the crates that are called.
use vstd::prelude::*;
use regex::Regex;
use scraper::Html;
use scraper::Selector;

verus! {

/// What `select_text_nodes` returns for a page and a selector.
///
/// `None` where the selector is no valid CSS selector group. Otherwise one
/// entry for each element of the parsed page that matches the selector, in
/// the order in which the parser hands them out, and in each entry the text
/// nodes below that element, in document order.
pub uninterp spec fn selected_text_nodes(page: Seq<char>, selector: Seq<char>) -> Option<
    Seq<Seq<Seq<char>>>,
>;

/// What `select_attribute` returns for a page, a selector and an attribute's
/// name.
///
/// `None` where the selector is no valid CSS selector group. Otherwise one
/// entry for each element of the parsed page that matches the selector, in
/// the order in which the parser hands them out: the value of the attribute
/// on that element, or `None` where the element does not have it.
pub uninterp spec fn selected_attributes(
    page: Seq<char>,
    selector: Seq<char>,
    attribute: Seq<char>,
) -> Option<Seq<Option<Seq<char>>>>;

/// What `select_nested_text_nodes` returns for a page and two selectors.
///
/// `None` where one of the selectors is no valid CSS selector group.
/// Otherwise one entry for each element of the parsed page that matches the
/// outer selector; in it one entry for each element below that one that
/// matches the inner selector; and in that the text nodes below the inner
/// element, in document order.
pub uninterp spec fn nested_text_nodes(
    page: Seq<char>,
    outer: Seq<char>,
    inner: Seq<char>,
) -> Option<Seq<Seq<Seq<Seq<char>>>>>;

/// What `find_matches` returns for a pattern and a text.
///
/// `None` where the pattern is no valid regular expression. Otherwise the
/// successive matches of the pattern in the text that do not overlap, from
/// left to right.
pub uninterp spec fn pattern_matches(pattern: Seq<char>, text: Seq<char>) -> Option<
    Seq<Seq<char>>,
>;

/// Parses `page` with `scraper::Html::parse_document`, walks the elements
/// that `scraper::Html::select` yields for `selector`, and collects the text
/// nodes that `scraper::ElementRef::text` yields for each.
///
/// The selector is compiled with `scraper::Selector::parse`; its failure is
/// the `None`. The contract claims only that the result is a function of the
/// two texts.
#[verifier::external_body]
pub(crate) fn select_text_nodes(page: &str, selector: &str) -> (r: Option<Vec<Vec<String>>>)
    ensures
        r.deep_view() == selected_text_nodes(page@, selector@),
{
    let compiled = match Selector::parse(selector) {
        Ok(compiled) => compiled,
        Err(_) => return None,
    };
    let document = Html::parse_document(page);
    Some(document.select(&compiled).map(|e| e.text().map(String::from).collect()).collect())
}

/// Parses `page` with `scraper::Html::parse_document`, walks the elements
/// that `scraper::Html::select` yields for `selector`, and asks each for the
/// attribute with `scraper::ElementRef::attr`.
///
/// The selector is compiled with `scraper::Selector::parse`; its failure is
/// the `None`. The contract claims only that the result is a function of the
/// three texts.
#[verifier::external_body]
pub(crate) fn select_attribute(page: &str, selector: &str, attribute: &str) -> (r: Option<
    Vec<Option<String>>,
>)
    ensures
        r.deep_view() == selected_attributes(page@, selector@, attribute@),
{
    let compiled = match Selector::parse(selector) {
        Ok(compiled) => compiled,
        Err(_) => return None,
    };
    let document = Html::parse_document(page);
    Some(document.select(&compiled).map(|e| e.attr(attribute).map(String::from)).collect())
}

/// Parses `page` with `scraper::Html::parse_document`, walks the elements
/// that `scraper::Html::select` yields for `outer`, below each the elements
/// that `scraper::ElementRef::select` yields for `inner`, and collects the
/// text nodes that `scraper::ElementRef::text` yields for each of those.
///
/// The selectors are compiled with `scraper::Selector::parse`; a failure of
/// either is the `None`. The contract claims only that the result is a
/// function of the three texts.
#[verifier::external_body]
pub(crate) fn select_nested_text_nodes(page: &str, outer: &str, inner: &str) -> (r: Option<
    Vec<Vec<Vec<String>>>,
>)
    ensures
        r.deep_view() == nested_text_nodes(page@, outer@, inner@),
{
    let (outer, inner) = match (Selector::parse(outer), Selector::parse(inner)) {
        (Ok(outer), Ok(inner)) => (outer, inner),
        _ => return None,
    };
    let document = Html::parse_document(page);
    let texts = |e: scraper::ElementRef| e.text().map(String::from).collect();
    Some(document.select(&outer).map(|e| e.select(&inner).map(texts).collect()).collect())
}

/// Compiles `pattern` with `regex::Regex::new` and collects what
/// `regex::Regex::find_iter` yields on `text`.
///
/// A pattern that does not compile gives `None`. The contract claims only
/// that the result is a function of the two texts.
#[verifier::external_body]
pub(crate) fn find_matches(pattern: &str, text: &str) -> (r: Option<Vec<String>>)
    ensures
        r.deep_view() == pattern_matches(pattern@, text@),
{
    match Regex::new(pattern) {
        Ok(compiled) => Some(compiled.find_iter(text).map(|m| String::from(m.as_str())).collect()),
        Err(_) => None,
    }
}

} // verus!
