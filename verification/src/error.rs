//! The ways in which a scrape can fail, and the answer of a page fetch.
use vstd::prelude::*;
use crate::text::{decimal_digits, decimal_text};

verus! {

/// Why an operation gave no result.
#[derive(Debug, PartialEq, Eq)]
pub enum ScrapeError {
    /// The request did not complete; the text says why.
    Transport(String),
    /// The server answered with a status outside 200 to 299.
    Status(u16),
    /// No session exists yet: log in first.
    SessionMissing,
    /// The login page holds no validation token.
    TokenNotFound,
    /// The page lacks the section that holds the data.
    SectionNotFound,
    /// The page is longer than the parser takes.
    PageTooLarge,
}

impl ScrapeError {
    /// The text of [`ScrapeError::message`].
    pub open spec fn message_text(self) -> Seq<char> {
        match self {
            ScrapeError::Transport(reason) => reason@,
            ScrapeError::Status(code) => "Request failed with status "@ + decimal_digits(code as nat),
            ScrapeError::SessionMissing => "Client is not initialized. Please login first."@,
            ScrapeError::TokenNotFound => "Failed to find __EVENTVALIDATION token"@,
            ScrapeError::SectionNotFound => "Section not found"@,
            ScrapeError::PageTooLarge => "Page is too large to read"@,
        }
    }

    /// What to tell the user.
    pub fn message(&self) -> (r: String)
        ensures
            r@ == self.message_text(),
    {
        match self {
            ScrapeError::Transport(reason) => reason.clone(),
            ScrapeError::Status(code) => {
                let mut r = String::from_str("Request failed with status ");
                let digits = decimal_text(*code as u64);
                r.append(digits.as_str());
                r
            },
            ScrapeError::SessionMissing => String::from_str(
                "Client is not initialized. Please login first.",
            ),
            ScrapeError::TokenNotFound => String::from_str("Failed to find __EVENTVALIDATION token"),
            ScrapeError::SectionNotFound => String::from_str("Section not found"),
            ScrapeError::PageTooLarge => String::from_str("Page is too large to read"),
        }
    }

    /// The text of [`ScrapeError::report`]: the message, marked as an error.
    pub open spec fn report_text(self) -> Seq<char> {
        "Error: "@ + self.message_text()
    }

    /// The text that a failed scrape hands to its caller in place of the data.
    pub fn report(&self) -> (r: String)
        ensures
            r@ == self.report_text(),
    {
        let mut r = String::from_str("Error: ");
        let message = self.message();
        r.append(message.as_str());
        r
    }
}

/// The largest number of bytes of a page that the parser takes: a third of 2^31. The
/// parser keeps text in buffers of at most 2^31 bytes, and a stretch of text can come
/// out three times as long as it went in.
pub const MAX_PAGE_BYTES: usize = 715827882;

/// Whether a page's text, written in UTF-8, is short enough for the parser.
pub open spec fn page_fits(body: Seq<char>) -> bool {
    3 * vstd::utf8::encode_utf8(body).len() <= 0x8000_0000
}

/// Whether a page's text is short enough for the parser.
pub fn fits(body: &str) -> (r: bool)
    ensures
        r == page_fits(body@),
{
    body.as_bytes().len() <= MAX_PAGE_BYTES
}

/// What a page fetch returned.
#[derive(Debug, PartialEq, Eq)]
pub struct PageResponse {
    pub status: u16,
    pub body: String,
}

/// Whether an HTTP status is in the range 200 to 299.
pub open spec fn is_success(status: u16) -> bool {
    200 <= status <= 299
}

/// Why a fetched page cannot be read, if it cannot: the server answered with a status
/// outside 200 to 299, or the page is longer than the parsers take.
pub open spec fn unreadable(status: u16, body: Seq<char>) -> Option<ScrapeError> {
    if !is_success(status) {
        Some(ScrapeError::Status(status))
    } else if !page_fits(body) {
        Some(ScrapeError::PageTooLarge)
    } else {
        None
    }
}

impl PageResponse {
    /// Whether the status is in the range 200 to 299.
    pub fn succeeded(&self) -> (r: bool)
        ensures
            r == is_success(self.status),
    {
        200 <= self.status && self.status <= 299
    }

    /// Tells whether the page can be read, and why not where it cannot.
    pub fn check(&self) -> (r: Result<(), ScrapeError>)
        ensures
            match unreadable(self.status, self.body@) {
                Some(error) => r == Err::<(), ScrapeError>(error),
                None => r is Ok,
            },
    {
        if !self.succeeded() {
            Err(ScrapeError::Status(self.status))
        } else if !fits(self.body.as_str()) {
            Err(ScrapeError::PageTooLarge)
        } else {
            Ok(())
        }
    }
}

} // verus!
