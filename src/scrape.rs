//! The calls into scraper, and the values they hand out: a parsed page, a
//! compiled selector and an element. Each carries, as its view, what it was
//! made from (the page text, the selector text, the element's path), and
//! only the functions of this module make one.
//!
//! An element's path is the index of its match among the page's matches of
//! a first selector, then for each further step the selector applied within
//! the element before and the index of the match there.

use scraper::{ElementRef, Html, Selector};
use vstd::prelude::*;

verus! {

#[verifier::external_type_specification]
#[verifier::external_body]
pub struct ExHtml(scraper::Html);

#[verifier::external_type_specification]
#[verifier::external_body]
pub struct ExSelector(scraper::Selector);

#[verifier::external_type_specification]
#[verifier::external_body]
pub struct ExElementRef<'a>(scraper::ElementRef<'a>);

/// Whether scraper accepts the text as a CSS selector group.
pub uninterp spec fn is_selector(pattern: Seq<char>) -> bool;

/// How many elements of the page match the selector.
pub uninterp spec fn page_match_count(page: Seq<char>, pattern: Seq<char>) -> nat;

/// How many descendants of the element at `path` match the selector.
pub uninterp spec fn element_match_count(page: Seq<char>, path: Seq<(Seq<char>, int)>, pattern: Seq<char>) -> nat;

/// The text nodes under the element at `path`, concatenated in document order.
pub uninterp spec fn element_text(page: Seq<char>, path: Seq<(Seq<char>, int)>) -> Seq<char>;

/// A parsed page; its view is the text it was parsed from.
pub struct Page {
    html: Html,
    source: Ghost<Seq<char>>,
}

/// A compiled selector; its view is the text it was compiled from.
pub struct Pattern {
    sel: Selector,
    text: Ghost<Seq<char>>,
}

/// An element of a page; its view is the page text and its path there.
pub struct Element<'a> {
    el: ElementRef<'a>,
    page: Ghost<Seq<char>>,
    path: Ghost<Seq<(Seq<char>, int)>>,
}

impl View for Page {
    type V = Seq<char>;

    closed spec fn view(&self) -> Seq<char> {
        self.source@
    }
}

impl View for Pattern {
    type V = Seq<char>;

    closed spec fn view(&self) -> Seq<char> {
        self.text@
    }
}

impl<'a> View for Element<'a> {
    type V = (Seq<char>, Seq<(Seq<char>, int)>);

    closed spec fn view(&self) -> (Seq<char>, Seq<(Seq<char>, int)>) {
        (self.page@, self.path@)
    }
}

/// Relies on scraper's `Html::parse_document`: builds the document tree of
/// the page text; it never fails.
#[verifier::external_body]
pub fn parse_page(text: &str) -> (r: Page)
    ensures
        r@ == text@,
{
    Page { html: Html::parse_document(text), source: Ghost(text@) }
}

/// Relies on scraper's `Selector::parse`: compiles a CSS selector group, or
/// fails; which of the two depends on the text alone.
#[verifier::external_body]
pub fn compile(pattern: &str) -> (r: Option<Pattern>)
    ensures
        r is Some <==> is_selector(pattern@),
        r matches Some(p) ==> p@ == pattern@,
{
    Selector::parse(pattern).ok().map(|sel| Pattern { sel, text: Ghost(pattern@) })
}

/// Relies on scraper's `Html::select`: the elements of the page that match
/// the selector, in document order.
#[verifier::external_body]
pub fn select_in_page<'a>(page: &'a Page, pat: &Pattern) -> (r: Vec<Element<'a>>)
    ensures
        r@.len() == page_match_count(page@, pat@),
        forall|i: int| 0 <= i < r@.len() ==> (#[trigger] r@[i])@ == (page@, seq![(pat@, i)]),
{
    page.html.select(&pat.sel).enumerate().map(|(i, el)| Element {
        el,
        page: Ghost(page.source@),
        path: Ghost(seq![(pat.text@, i as int)]),
    }).collect()
}

/// Relies on scraper's `ElementRef::select`: the descendants of the element
/// that match the selector, in document order.
#[verifier::external_body]
pub fn select_in_element<'a>(e: &Element<'a>, pat: &Pattern) -> (r: Vec<Element<'a>>)
    ensures
        r@.len() == element_match_count(e@.0, e@.1, pat@),
        forall|j: int| 0 <= j < r@.len() ==> (#[trigger] r@[j])@ == (e@.0, e@.1.push((pat@, j))),
{
    e.el.select(&pat.sel).enumerate().map(|(j, el)| Element {
        el,
        page: Ghost(e.page@),
        path: Ghost(e.path@.push((pat.text@, j as int))),
    }).collect()
}

/// Relies on scraper's `ElementRef::text`: the text nodes under the element,
/// concatenated in document order.
#[verifier::external_body]
pub fn text_of(e: &Element) -> (r: String)
    ensures
        r@ == element_text(e@.0, e@.1),
{
    e.el.text().collect::<String>()
}

} // verus!
