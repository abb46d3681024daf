//! The dashboard: the announcements of the front page as one block of text.
use vstd::prelude::*;
use crate::error::{unreadable, PageResponse, ScrapeError};
use crate::html::{
    element_matches, element_text_each, first_match, parse_document, parsed_document, select_all,
    select_within, text_of_each, TextMode,
};

verus! {

/// Selects the section of the front page that holds the announcements.
pub const DASHBOARD_SECTION: &'static str = "div#s_m_Content_Content_aktueltIsland_pa";

/// The rows written one after another, each followed by a line break.
pub open spec fn digest_of(rows: Seq<Seq<char>>) -> Seq<char>
    decreases rows.len(),
{
    if rows.len() == 0 {
        Seq::empty()
    } else {
        digest_of(rows.drop_last()) + rows.last() + "\n"@
    }
}

/// Writes the rows one after another, each followed by a line break.
pub fn digest_from_rows(rows: &Vec<String>) -> (r: String)
    ensures
        r@ == digest_of(rows.deep_view()),
{
    let mut r = String::new();
    let mut i: usize = 0;
    assert(rows.deep_view().take(0) =~= Seq::empty());
    while i < rows.len()
        invariant
            i <= rows.len(),
            r@ == digest_of(rows.deep_view().take(i as int)),
        decreases rows.len() - i,
    {
        proof {
            let prefix = rows.deep_view().take(i + 1);
            assert(prefix.drop_last() =~= rows.deep_view().take(i as int));
            assert(prefix.last() == rows@[i as int]@);
        }
        r.append(rows[i].as_str());
        r.append("\n");
        i += 1;
    }
    assert(rows.deep_view().take(i as int) =~= rows.deep_view());
    r
}

/// What the front page `body` gives: the text of the rows of its announcement section,
/// where it has that section. A row's text is its text nodes joined by spaces, trimmed.
pub open spec fn dashboard_of_page(body: Seq<char>) -> Option<Seq<char>> {
    match first_match(parsed_document(body), DASHBOARD_SECTION@) {
        Some(section) => Some(
            digest_of(element_text_each(element_matches(section, "tr"@), TextMode::Spaced)),
        ),
        None => None,
    }
}

/// What becomes of a fetched front page: why it cannot be read, or that it lacks the
/// announcement section, or the text of that section.
pub open spec fn dashboard_outcome(status: u16, body: Seq<char>) -> Result<Seq<char>, ScrapeError> {
    match unreadable(status, body) {
        Some(error) => Err(error),
        None => match dashboard_of_page(body) {
            Some(digest) => Ok(digest),
            None => Err(ScrapeError::SectionNotFound),
        },
    }
}

/// Reads the announcements off the fetched front page.
pub fn scrape_dashboard(response: &PageResponse) -> (r: Result<String, ScrapeError>)
    ensures
        match dashboard_outcome(response.status, response.body@) {
            Ok(digest) => r is Ok && r->Ok_0@ == digest,
            Err(error) => r == Err::<String, ScrapeError>(error),
        },
{
    match response.check() {
        Err(error) => { return Err(error); },
        Ok(_) => {},
    }
    let document = parse_document(response.body.as_str());
    let sections = select_all(&document, DASHBOARD_SECTION);
    if sections.len() == 0 {
        return Err(ScrapeError::SectionNotFound);
    }
    let rows = select_within(&sections[0], "tr");
    let texts = text_of_each(&rows, TextMode::Spaced);
    Ok(digest_from_rows(&texts))
}

/// What the caller gets for the dashboard, from how the fetch of the front page ended.
pub open spec fn dashboard_reply(fetched: Result<PageResponse, ScrapeError>) -> Seq<char> {
    match fetched {
        Err(error) => error.report_text(),
        Ok(response) => match dashboard_outcome(response.status, response.body@) {
            Ok(digest) => digest,
            Err(error) => error.report_text(),
        },
    }
}

/// Answers a request for the dashboard: the announcements, or the text of the failure.
pub fn get_dashboard(fetched: Result<PageResponse, ScrapeError>) -> (r: String)
    ensures
        r@ == dashboard_reply(fetched),
{
    match fetched {
        Err(error) => error.report(),
        Ok(response) => match scrape_dashboard(&response) {
            Ok(digest) => digest,
            Err(error) => error.report(),
        },
    }
}

} // verus!
