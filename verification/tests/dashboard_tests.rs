use lectio_scraper::dashboard::{digest_from_rows, get_dashboard, scrape_dashboard};
use lectio_scraper::error::{PageResponse, ScrapeError};

#[test]
fn the_digest_ends_each_row_with_a_line_break() {
    assert_eq!(digest_from_rows(&vec!["a".to_string(), "b c".to_string()]), "a\nb c\n");
    assert_eq!(digest_from_rows(&vec![String::new()]), "\n");
    assert_eq!(digest_from_rows(&Vec::new()), "");
}

#[test]
fn the_dashboard_is_read_off_the_front_page() {
    let body = "<html><body><div id=\"s_m_Content_Content_aktueltIsland_pa\"><table>\
        <tr><td> Husk </td><td><b>forældremøde</b></td></tr>\
        <tr><td>Ferie</td></tr>\
        </table></div><table><tr><td>elsewhere</td></tr></table></body></html>";
    let response = PageResponse { status: 200, body: body.to_string() };
    assert_eq!(scrape_dashboard(&response), Ok("Husk  forældremøde\nFerie\n".to_string()));
    assert_eq!(get_dashboard(Ok(response)), "Husk  forældremøde\nFerie\n");
}

#[test]
fn a_section_without_rows_gives_an_empty_digest() {
    let body = "<div id=\"s_m_Content_Content_aktueltIsland_pa\">nothing</div>";
    let response = PageResponse { status: 200, body: body.to_string() };
    assert_eq!(scrape_dashboard(&response), Ok(String::new()));
}

#[test]
fn a_front_page_without_the_section_is_an_error() {
    let response = PageResponse {
        status: 200,
        body: "<html><body><div id=\"login\">log in</div></body></html>".to_string(),
    };
    assert_eq!(scrape_dashboard(&response), Err(ScrapeError::SectionNotFound));
    assert_eq!(get_dashboard(Ok(response)), "Error: Section not found");
}

#[test]
fn a_failed_fetch_of_the_front_page_is_an_error() {
    let response = PageResponse { status: 503, body: String::new() };
    assert_eq!(scrape_dashboard(&response), Err(ScrapeError::Status(503)));
    assert_eq!(get_dashboard(Ok(response)), "Error: Request failed with status 503");
    assert_eq!(
        get_dashboard(Err(ScrapeError::SessionMissing)),
        "Error: Client is not initialized. Please login first."
    );
    assert_eq!(
        get_dashboard(Err(ScrapeError::Transport("dns error".to_string()))),
        "Error: dns error"
    );
}
