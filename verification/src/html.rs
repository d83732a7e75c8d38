//! Lookups in a parsed HTML document, by CSS selector.
//!
//! Parsing the document, parsing a selector and matching the one against the
//! other are the work of the `scraper` crate. What it returns is named here,
//! not defined: the lookups are verified against those names, for every
//! document and every selector.

use crate::text::{trim, trimmed};
use scraper::{ElementRef, Html, Selector};
use vstd::prelude::*;

verus! {

/// A parsed HTML document, `scraper::Html`.
#[verifier::external_type_specification]
#[verifier::external_body]
pub struct ExHtml(Html);

/// A parsed group of CSS selectors, `scraper::Selector`.
#[verifier::external_type_specification]
#[verifier::external_body]
pub struct ExSelector(Selector);

/// A reference to one element of a document, `scraper::ElementRef`.
#[verifier::external_type_specification]
#[verifier::external_body]
pub struct ExElementRef<'a>(ElementRef<'a>);

/// The document that `Html::parse_document` builds from the text `source`.
pub uninterp spec fn parsed_document(source: Seq<char>) -> Html;

/// The selector that `Selector::parse` reads from `text`; `None` where it
/// rejects the text.
pub uninterp spec fn parsed_selector(text: Seq<char>) -> Option<Selector>;

/// The elements of `html` that `selector` matches, in the order in which
/// `Html::select` yields them.
pub uninterp spec fn selected(html: Html, selector: Selector) -> Seq<ElementRef<'static>>;

/// The text nodes below `element`, in the order in which `ElementRef::text`
/// yields them, as one text.
pub uninterp spec fn element_text(element: ElementRef) -> Seq<char>;

/// The value that `ElementRef::attr` finds for the attribute `name` of
/// `element`; `None` where the element has no such attribute.
pub uninterp spec fn element_attr(element: ElementRef, name: Seq<char>) -> Option<Seq<char>>;

/// `Html::parse_document`: parses `source` as a whole HTML document. The
/// parser accepts every text and its result depends on the text alone, which
/// [`parsed_document`] names.
#[verifier::external_body]
pub(crate) fn parse_document(source: &str) -> (html: Html)
    ensures
        html == parsed_document(source@),
{
    Html::parse_document(source)
}

/// `Selector::parse`: parses `text` as a group of CSS selectors. An error of
/// the parser becomes `None`; the outcome depends on the text alone, which
/// [`parsed_selector`] names.
#[verifier::external_body]
fn parse_selector(text: &str) -> (selector: Option<Selector>)
    ensures
        selector == parsed_selector(text@),
{
    Selector::parse(text).ok()
}

/// `Html::select`: all elements of `html` that `selector` matches, collected
/// in the order in which the iterator yields them, which [`selected`] names.
#[verifier::external_body]
fn select<'a>(html: &'a Html, selector: &Selector) -> (elements: Vec<ElementRef<'a>>)
    ensures
        elements@ == selected(*html, *selector),
{
    html.select(selector).collect()
}

/// `ElementRef::text`: the text nodes below `element`, collected into one
/// string in the order in which the iterator yields them, which
/// [`element_text`] names.
#[verifier::external_body]
fn text_of(element: &ElementRef) -> (text: String)
    ensures
        text@ == element_text(*element),
{
    element.text().collect()
}

/// `ElementRef::attr`: the value of the attribute `name` of `element`, copied
/// into a string, or `None` where the element has no such attribute, which
/// [`element_attr`] names.
#[verifier::external_body]
fn attr_of(element: &ElementRef, name: &str) -> (value: Option<String>)
    ensures
        value.deep_view() == element_attr(*element, name@),
{
    element.attr(name).map(String::from)
}

/// The elements of `html` that the selector written as `selector` matches. A
/// text that is no selector matches nothing.
pub open spec fn matches(html: Html, selector: Seq<char>) -> Seq<ElementRef<'static>> {
    match parsed_selector(selector) {
        Some(s) => selected(html, s),
        None => Seq::empty(),
    }
}

/// The trimmed text of each element that `selector` matches.
pub open spec fn texts(html: Html, selector: Seq<char>) -> Seq<Seq<char>> {
    matches(html, selector).map_values(|element: ElementRef| trimmed(element_text(element)))
}

/// The trimmed text of the first element that `selector` matches; `None`
/// where it matches nothing.
pub open spec fn found_text(html: Html, selector: Seq<char>) -> Option<Seq<char>> {
    if texts(html, selector).len() > 0 {
        Some(texts(html, selector)[0])
    } else {
        None
    }
}

/// The trimmed text of the first element that `selector` matches; empty
/// where it matches nothing.
pub open spec fn first_text(html: Html, selector: Seq<char>) -> Seq<char> {
    match found_text(html, selector) {
        Some(text) => text,
        None => Seq::empty(),
    }
}

/// The trimmed texts of all elements that `selector` matches; `None`, not an
/// empty sequence, where it matches nothing.
pub open spec fn all_texts(html: Html, selector: Seq<char>) -> Option<Seq<Seq<char>>> {
    if texts(html, selector).len() > 0 {
        Some(texts(html, selector))
    } else {
        None
    }
}

/// The value of the attribute `attr` of the first element that `selector`
/// matches; `None` where it matches nothing or the element has no such
/// attribute.
pub open spec fn first_attr(html: Html, selector: Seq<char>, attr: Seq<char>) -> Option<
    Seq<char>,
> {
    if matches(html, selector).len() > 0 {
        element_attr(matches(html, selector)[0], attr)
    } else {
        None
    }
}

/// The elements of `html` that the selector written as `selector` matches.
fn select_all<'a>(html: &'a Html, selector: &str) -> (elements: Vec<ElementRef<'a>>)
    ensures
        elements@ == matches(*html, selector@),
{
    match parse_selector(selector) {
        Some(s) => select(html, &s),
        None => Vec::new(),
    }
}

/// The trimmed text of the first element that `selector` matches; `None`
/// where it matches nothing.
pub fn find_text(html: &Html, selector: &str) -> (text: Option<String>)
    ensures
        text.deep_view() == found_text(*html, selector@),
{
    let elements = select_all(html, selector);
    if elements.len() > 0 {
        let raw = text_of(&elements[0]);
        Some(trim(raw.as_str()))
    } else {
        None
    }
}

/// The trimmed text of the first element that `selector` matches; empty
/// where it matches nothing.
pub fn get_text(html: &Html, selector: &str) -> (text: String)
    ensures
        text@ == first_text(*html, selector@),
{
    match find_text(html, selector) {
        Some(text) => text,
        None => String::new(),
    }
}

/// The trimmed texts of all elements that `selector` matches, in the order
/// in which the document yields them; `None`, not an empty vector, where it
/// matches nothing.
pub fn get_texts(html: &Html, selector: &str) -> (found: Option<Vec<String>>)
    ensures
        found.deep_view() == all_texts(*html, selector@),
{
    let elements = select_all(html, selector);
    let mut found: Vec<String> = Vec::new();
    let mut i: usize = 0;
    while i < elements.len()
        invariant
            i <= elements.len(),
            elements@ == matches(*html, selector@),
            found.deep_view() == texts(*html, selector@).take(i as int),
        decreases elements.len() - i,
    {
        let raw = text_of(&elements[i]);
        let text = trim(raw.as_str());
        let ghost before = found.deep_view();
        found.push(text);
        proof {
            let all = texts(*html, selector@);
            assert(found.deep_view() =~= before.push(text@));
            assert(before.push(text@) =~= all.take(i + 1));
        }
        i += 1;
    }
    proof {
        let all = texts(*html, selector@);
        assert(all.take(all.len() as int) =~= all);
    }
    if found.len() == 0 {
        None
    } else {
        Some(found)
    }
}

/// The value of the attribute `attr` of the first element that `selector`
/// matches; `None` where it matches nothing or the element has no such
/// attribute.
pub fn get_attr(html: &Html, selector: &str, attr: &str) -> (value: Option<String>)
    ensures
        value.deep_view() == first_attr(*html, selector@, attr@),
{
    let elements = select_all(html, selector);
    if elements.len() > 0 {
        attr_of(&elements[0], attr)
    } else {
        None
    }
}

} // verus!
