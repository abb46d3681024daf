//! The directory of institutions, read off the public listing page.
use vstd::prelude::*;
use crate::error::{fits, page_fits, unreadable, PageResponse, ScrapeError};
use crate::html::{
    attr_of, document_matches, element_attr, element_matches, element_text, parse_document,
    parsed_document, select_all, select_within, text_of, TextMode,
};
use crate::keyed::Keyed;
use crate::text::{chars_of, lemma_chars_deep_view, split, split_chars, string_from_chars};

verus! {

/// A link of the listing page.
#[derive(Clone, Debug, PartialEq, Eq)]
pub struct Link {
    /// Where the link leads, where it says so.
    pub href: Option<String>,
    /// The text that the link shows.
    pub text: String,
}

/// What a [`Link`] holds.
pub ghost struct LinkView {
    pub href: Option<Seq<char>>,
    pub text: Seq<char>,
}

impl View for Link {
    type V = LinkView;

    open spec fn view(&self) -> LinkView {
        LinkView { href: self.href.deep_view(), text: self.text@ }
    }
}

/// The views of the links in `links`.
pub open spec fn link_views(links: Seq<Link>) -> Seq<LinkView> {
    Seq::new(links.len(), |i: int| links[i]@)
}

/// The institution that a link's address names: the third piece of the address when it
/// is cut at every `/`. An address of fewer pieces names none.
pub open spec fn institution_of(href: Seq<char>) -> Option<Seq<char>> {
    let pieces = split(href, '/');
    if pieces.len() > 2 {
        Some(pieces[2])
    } else {
        None
    }
}

/// The entry that a link contributes: the institution that its address names, with the
/// link's text as the display name. A link without an address, or whose address names no
/// institution, contributes none.
pub open spec fn entry_of_link(link: LinkView) -> Option<(Seq<char>, Seq<char>)> {
    match link.href {
        Some(href) => match institution_of(href) {
            Some(id) => Some((id, link.text)),
            None => None,
        },
        None => None,
    }
}

/// The directory that `links` make up, from identifier to display name. Of two links to
/// one institution the later counts.
pub open spec fn directory_of(links: Seq<LinkView>) -> Map<Seq<char>, Seq<char>>
    decreases links.len(),
{
    if links.len() == 0 {
        Map::empty()
    } else {
        let before = directory_of(links.drop_last());
        match entry_of_link(links.last()) {
            Some((id, name)) => before.insert(id, name),
            None => before,
        }
    }
}

/// The institution that a link's address names.
pub fn institution_from(href: &str) -> (r: Option<String>)
    ensures
        r.deep_view() == institution_of(href@),
{
    let chars = chars_of(href);
    let pieces = split_chars(&chars, '/');
    assert(pieces.deep_view().len() == pieces.len());
    if pieces.len() > 2 {
        proof {
            lemma_chars_deep_view(pieces@[2]);
            assert(pieces.deep_view()[2] == pieces@[2]@);
            assert(pieces@[2]@.subrange(0, pieces@[2]@.len() as int) =~= pieces@[2]@);
        }
        Some(string_from_chars(&pieces[2], 0, pieces[2].len()))
    } else {
        None
    }
}

/// Builds the directory from the links of the listing page.
pub fn directory_from_links(links: &Vec<Link>) -> (r: Keyed<String>)
    ensures
        r.wf(),
        r@ == directory_of(link_views(links@)),
{
    let mut r: Keyed<String> = Keyed::new();
    let mut i: usize = 0;
    assert(link_views(links@).take(0) =~= Seq::empty());
    while i < links.len()
        invariant
            i <= links.len(),
            r.wf(),
            r@ == directory_of(link_views(links@).take(i as int)),
        decreases links.len() - i,
    {
        proof {
            let prefix = link_views(links@).take(i + 1);
            assert(prefix.drop_last() =~= link_views(links@).take(i as int));
            assert(prefix.last() == links@[i as int]@);
        }
        match &links[i].href {
            Some(href) => match institution_from(href.as_str()) {
                Some(id) => {
                    r.insert(id, links[i].text.clone());
                },
                None => {},
            },
            None => {},
        }
        i += 1;
    }
    assert(link_views(links@).take(i as int) =~= link_views(links@));
    r
}

/// What the listing page shows of the link `anchor`: its address, and the text inside
/// it, put together as it stands.
pub open spec fn link_of(anchor: scraper::ElementRef<'_>) -> LinkView {
    LinkView { href: element_attr(anchor, "href"@), text: element_text(anchor, TextMode::Plain) }
}

/// The links inside `section`: its `a` descendants, in page order.
pub open spec fn links_in(section: scraper::ElementRef<'_>) -> Seq<LinkView> {
    let anchors = element_matches(section, "a"@);
    Seq::new(anchors.len(), |i: int| link_of(anchors[i]))
}

/// The links inside each of `sections`, section by section. A link inside two nested
/// sections comes twice.
pub open spec fn links_within(sections: Seq<scraper::ElementRef<'static>>) -> Seq<LinkView>
    decreases sections.len(),
{
    if sections.len() == 0 {
        Seq::empty()
    } else {
        links_within(sections.drop_last()) + links_in(sections.last())
    }
}

/// The links of the listing page `body`: those inside its `div` elements.
pub open spec fn links_of_page(body: Seq<char>) -> Seq<LinkView> {
    links_within(document_matches(parsed_document(body), "div"@))
}

/// Finds the links of the listing page. A page that is too long to be parsed is
/// turned down.
pub fn page_links(body: &str) -> (r: Result<Vec<Link>, ScrapeError>)
    ensures
        r is Ok <==> page_fits(body@),
        r is Ok ==> link_views(r->Ok_0@) == links_of_page(body@),
        r is Err ==> r->Err_0 == ScrapeError::PageTooLarge,
{
    if !fits(body) {
        return Err(ScrapeError::PageTooLarge);
    }
    let document = parse_document(body);
    let sections = select_all(&document, "div");
    let mut r: Vec<Link> = Vec::new();
    let mut i: usize = 0;
    assert(sections@.take(0) =~= Seq::empty());
    assert(link_views(r@) =~= Seq::empty());
    while i < sections.len()
        invariant
            i <= sections.len(),
            link_views(r@) == links_within(sections@.take(i as int)),
        decreases sections.len() - i,
    {
        let anchors = select_within(&sections[i], "a");
        let ghost before = link_views(r@);
        let mut j: usize = 0;
        while j < anchors.len()
            invariant
                i < sections.len(),
                j <= anchors.len(),
                anchors@ == element_matches(sections@[i as int], "a"@),
                link_views(r@) == before + links_in(sections@[i as int]).take(j as int),
            decreases anchors.len() - j,
        {
            let link = Link {
                href: attr_of(&anchors[j], "href"),
                text: text_of(&anchors[j], TextMode::Plain),
            };
            let ghost done = link_views(r@);
            let ghost added = link@;
            r.push(link);
            j += 1;
            proof {
                let all = links_in(sections@[i as int]);
                assert(link_views(r@) =~= done.push(added));
                assert(all.take(j as int) =~= all.take(j - 1).push(added));
                assert(link_views(r@) =~= before + all.take(j as int));
            }
        }
        proof {
            let prefix = sections@.take(i + 1);
            assert(prefix.drop_last() =~= sections@.take(i as int));
            assert(prefix.last() == sections@[i as int]);
            assert(links_in(sections@[i as int]).take(j as int) =~= links_in(sections@[i as int]));
        }
        i += 1;
    }
    assert(sections@.take(i as int) =~= sections@);
    Ok(r)
}

/// Reads the directory of institutions off the listing page. A page of another shape
/// gives fewer entries, or none; it is no error. Only a page that is too long to be
/// parsed is turned down.
pub fn get_schools(body: &str) -> (r: Result<Keyed<String>, ScrapeError>)
    ensures
        r is Ok <==> page_fits(body@),
        r is Ok ==> r->Ok_0.wf() && r->Ok_0@ == directory_of(links_of_page(body@)),
        r is Err ==> r->Err_0 == ScrapeError::PageTooLarge,
{
    match page_links(body) {
        Ok(links) => Ok(directory_from_links(&links)),
        Err(error) => Err(error),
    }
}

/// Answers a request for the directory of institutions, from how the fetch of the
/// listing page ended: the directory, or the text of the failure. The fetch fails where
/// it did not complete, where the server answered with a status outside 200 to 299, and
/// where the page is too long to be parsed.
pub fn list_institutions(fetched: Result<PageResponse, ScrapeError>) -> (r: Result<
    Keyed<String>,
    String,
>)
    ensures
        match fetched {
            Err(error) => r is Err && r->Err_0@ == error.report_text(),
            Ok(response) => match unreadable(response.status, response.body@) {
                Some(error) => r is Err && r->Err_0@ == error.report_text(),
                None => r is Ok && r->Ok_0.wf() && r->Ok_0@ == directory_of(
                    links_of_page(response.body@),
                ),
            },
        },
{
    match fetched {
        Err(error) => Err(error.report()),
        Ok(response) => match response.check() {
            Err(error) => Err(error.report()),
            Ok(_) => match get_schools(response.body.as_str()) {
                Ok(directory) => Ok(directory),
                Err(error) => Err(error.report()),
            },
        },
    }
}

} // verus!
