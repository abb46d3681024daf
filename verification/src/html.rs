//! Access to parsed HTML pages.
//!
//! Parsing and CSS selection are done by the `scraper` crate. Its documents and
//! element handles are opaque here; what an element holds is named by the
//! uninterpreted functions below, and everything built on top is verified.
use vstd::prelude::*;
use vstd::string::StringSliceAdditionalSpecFns;
use crate::text::{join, joined, trim, trimmed};

verus! {

#[verifier::external_type_specification]
#[verifier::external_body]
pub struct ExHtml(scraper::Html);

#[verifier::external_type_specification]
#[verifier::external_body]
pub struct ExElementRef<'a>(scraper::ElementRef<'a>);

/// The document that `scraper::Html::parse_document` builds from a page's text.
pub uninterp spec fn parsed_document(text: Seq<char>) -> scraper::Html;

/// The elements of `doc` that the CSS selector matches, in the order in which
/// `scraper::Html::select` yields them; empty where the selector does not parse.
pub uninterp spec fn document_matches(doc: scraper::Html, selector: Seq<char>) -> Seq<
    scraper::ElementRef<'static>,
>;

/// The descendants of `el` that the CSS selector matches, in the order in which
/// `scraper::ElementRef::select` yields them; empty where the selector does not parse.
pub uninterp spec fn element_matches(el: scraper::ElementRef<'_>, selector: Seq<char>) -> Seq<
    scraper::ElementRef<'static>,
>;

/// The value of the attribute `name` of `el`, as `scraper::ElementRef::attr` reports it.
pub uninterp spec fn element_attr(el: scraper::ElementRef<'_>, name: Seq<char>) -> Option<
    Seq<char>,
>;

/// The descendant text nodes of `el`, in the order in which `scraper::ElementRef::text`
/// yields them.
pub uninterp spec fn element_texts(el: scraper::ElementRef<'_>) -> Seq<Seq<char>>;

/// The markup inside `el`, as `scraper::ElementRef::inner_html` serialises it.
pub uninterp spec fn element_inner_html(el: scraper::ElementRef<'_>) -> Seq<char>;

/// Calls `scraper::Html::parse_document`. The parser keeps text in buffers whose
/// capacity is rounded up to a power of two and held in 32 bits, and it stops the
/// program when one would pass 2^31 bytes. A stretch of text can come out three times
/// as long as it went in, since a NUL byte becomes a three-byte replacement character.
/// So only a text of at most a third of 2^31 bytes is taken. The contract only gives
/// the resulting document its name.
#[verifier::external_body]
pub(crate) fn parse_document(text: &str) -> (doc: scraper::Html)
    requires
        3 * text.spec_bytes().len() <= 0x8000_0000,
    ensures
        doc == parsed_document(text@),
{
    scraper::Html::parse_document(text)
}

/// Calls `scraper::Selector::parse` and `scraper::Html::select`, and collects the
/// elements that the iterator yields. A selector that does not parse selects nothing.
/// The contract only gives the resulting sequence its name.
#[verifier::external_body]
pub(crate) fn select_all<'a>(doc: &'a scraper::Html, selector: &str) -> (r: Vec<
    scraper::ElementRef<'a>,
>)
    ensures
        r@ == document_matches(*doc, selector@),
{
    match scraper::Selector::parse(selector) {
        Ok(parsed) => doc.select(&parsed).collect(),
        Err(_) => Vec::new(),
    }
}

/// Calls `scraper::Selector::parse` and `scraper::ElementRef::select`, and collects the
/// elements that the iterator yields. A selector that does not parse selects nothing.
/// The contract only gives the resulting sequence its name.
#[verifier::external_body]
pub(crate) fn select_within<'a>(el: &scraper::ElementRef<'a>, selector: &str) -> (r: Vec<
    scraper::ElementRef<'a>,
>)
    ensures
        r@ == element_matches(*el, selector@),
{
    match scraper::Selector::parse(selector) {
        Ok(parsed) => el.select(&parsed).collect(),
        Err(_) => Vec::new(),
    }
}

/// Calls `scraper::ElementRef::attr` and copies the value it finds.
/// The contract only gives the result its name.
#[verifier::external_body]
pub(crate) fn attr_of(el: &scraper::ElementRef<'_>, name: &str) -> (r: Option<String>)
    ensures
        r.deep_view() == element_attr(*el, name@),
{
    match el.attr(name) {
        Some(value) => Some(value.to_string()),
        None => None,
    }
}

/// Calls `scraper::ElementRef::text` and copies each text node that the iterator yields.
/// The contract only gives the resulting sequence its name.
#[verifier::external_body]
pub(crate) fn texts_of(el: &scraper::ElementRef<'_>) -> (r: Vec<String>)
    ensures
        r.deep_view() == element_texts(*el),
{
    el.text().map(|node| node.to_string()).collect()
}

/// Calls `scraper::ElementRef::inner_html`. The contract only gives the result its name.
#[verifier::external_body]
pub(crate) fn inner_html_of(el: &scraper::ElementRef<'_>) -> (r: String)
    ensures
        r@ == element_inner_html(*el),
{
    el.inner_html()
}

/// How an element's text nodes are put together.
#[derive(Clone, Copy, Debug, PartialEq, Eq, Structural)]
pub enum TextMode {
    /// One after another with nothing between them.
    Plain,
    /// One after another with nothing between them, then trimmed.
    Packed,
    /// Joined by single spaces.
    Loose,
    /// Joined by single spaces, then trimmed.
    Spaced,
}

/// The text of `el`, put together from its text nodes as `mode` says.
pub open spec fn element_text(el: scraper::ElementRef<'_>, mode: TextMode) -> Seq<char> {
    match mode {
        TextMode::Plain => joined(element_texts(el), ""@),
        TextMode::Packed => trimmed(joined(element_texts(el), ""@)),
        TextMode::Loose => joined(element_texts(el), " "@),
        TextMode::Spaced => trimmed(joined(element_texts(el), " "@)),
    }
}

/// The text of each element of `els`.
pub open spec fn element_text_each(
    els: Seq<scraper::ElementRef<'static>>,
    mode: TextMode,
) -> Seq<Seq<char>> {
    Seq::new(els.len(), |i: int| element_text(els[i], mode))
}

/// For each element of `rows`, the text of each descendant that `cell_selector` matches.
pub open spec fn cell_text_each(
    rows: Seq<scraper::ElementRef<'static>>,
    cell_selector: Seq<char>,
    mode: TextMode,
) -> Seq<Seq<Seq<char>>> {
    Seq::new(
        rows.len(),
        |i: int| element_text_each(element_matches(rows[i], cell_selector), mode),
    )
}

/// The first element of `doc` that `selector` matches.
pub open spec fn first_match(doc: scraper::Html, selector: Seq<char>) -> Option<
    scraper::ElementRef<'static>,
> {
    let found = document_matches(doc, selector);
    if found.len() > 0 {
        Some(found[0])
    } else {
        None
    }
}

/// The first descendant of `el` that `selector` matches.
pub open spec fn first_match_within(el: scraper::ElementRef<'_>, selector: Seq<char>) -> Option<
    scraper::ElementRef<'static>,
> {
    let found = element_matches(el, selector);
    if found.len() > 0 {
        Some(found[0])
    } else {
        None
    }
}

pub(crate) fn text_of(el: &scraper::ElementRef<'_>, mode: TextMode) -> (r: String)
    ensures
        r@ == element_text(*el, mode),
{
    let texts = texts_of(el);
    match mode {
        TextMode::Plain => join(&texts, ""),
        TextMode::Packed => {
            let packed = join(&texts, "");
            trim(packed.as_str())
        },
        TextMode::Loose => join(&texts, " "),
        TextMode::Spaced => {
            let loose = join(&texts, " ");
            trim(loose.as_str())
        },
    }
}

pub(crate) fn text_of_each(els: &Vec<scraper::ElementRef<'_>>, mode: TextMode) -> (r: Vec<String>)
    ensures
        r.deep_view() == element_text_each(els@, mode),
{
    let mut r: Vec<String> = Vec::new();
    let mut i: usize = 0;
    while i < els.len()
        invariant
            i <= els.len(),
            r.len() == i,
            forall|j: int| 0 <= j < i ==> (#[trigger] r@[j])@ == element_text(els@[j], mode),
        decreases els.len() - i,
    {
        r.push(text_of(&els[i], mode));
        i += 1;
    }
    assert(r.deep_view() =~= element_text_each(els@, mode));
    r
}

pub(crate) fn cell_text_of_each(
    rows: &Vec<scraper::ElementRef<'_>>,
    cell_selector: &str,
    mode: TextMode,
) -> (r: Vec<Vec<String>>)
    ensures
        r.deep_view() == cell_text_each(rows@, cell_selector@, mode),
{
    let mut r: Vec<Vec<String>> = Vec::new();
    let mut i: usize = 0;
    while i < rows.len()
        invariant
            i <= rows.len(),
            r.len() == i,
            forall|j: int|
                0 <= j < i ==> (#[trigger] r@[j]).deep_view() == element_text_each(
                    element_matches(rows@[j], cell_selector@),
                    mode,
                ),
        decreases rows.len() - i,
    {
        let cells = select_within(&rows[i], cell_selector);
        r.push(text_of_each(&cells, mode));
        i += 1;
    }
    assert(r.deep_view() =~= cell_text_each(rows@, cell_selector@, mode));
    r
}

} // verus!
