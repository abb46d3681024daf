use lectio_scraper::error::{fits, PageResponse, ScrapeError, MAX_PAGE_BYTES};

#[test]
fn every_failure_has_its_message() {
    assert_eq!(ScrapeError::Transport("broken pipe".to_string()).message(), "broken pipe");
    assert_eq!(ScrapeError::Status(404).message(), "Request failed with status 404");
    assert_eq!(ScrapeError::Status(0).message(), "Request failed with status 0");
    assert_eq!(
        ScrapeError::SessionMissing.message(),
        "Client is not initialized. Please login first."
    );
    assert_eq!(ScrapeError::TokenNotFound.message(), "Failed to find __EVENTVALIDATION token");
    assert_eq!(ScrapeError::SectionNotFound.message(), "Section not found");
    assert_eq!(ScrapeError::PageTooLarge.message(), "Page is too large to read");
}

#[test]
fn pages_of_ordinary_length_fit() {
    assert_eq!(MAX_PAGE_BYTES as u64, (1u64 << 31) / 3);
    assert!(fits(""));
    assert!(fits("<html>Ærø</html>"));
    assert_eq!(PageResponse { status: 200, body: "x".to_string() }.check(), Ok(()));
    assert_eq!(
        PageResponse { status: 404, body: "x".to_string() }.check(),
        Err(ScrapeError::Status(404))
    );
}

#[test]
fn a_report_marks_the_message_as_an_error() {
    assert_eq!(ScrapeError::SectionNotFound.report(), "Error: Section not found");
    assert_eq!(ScrapeError::Status(65535).report(), "Error: Request failed with status 65535");
    assert_eq!(ScrapeError::Transport(String::new()).report(), "Error: ");
}

#[test]
fn success_is_a_status_from_200_to_299() {
    for (status, expected) in vec![(0u16, false), (199, false), (200, true), (204, true), (299, true), (300, false), (404, false), (500, false)] {
        assert_eq!(PageResponse { status, body: String::new() }.succeeded(), expected);
    }
}
