//! Logging in: the validation token, the form that carries the credentials, and what
//! becomes of the session.
use vstd::prelude::*;
use crate::error::{fits, page_fits, PageResponse, ScrapeError};
use crate::html::{element_attr, first_match, attr_of, parse_document, parsed_document, select_all};
use crate::session::ClientManager;

verus! {

/// Selects the hidden field of the login page that holds the validation token.
pub const TOKEN_SELECTOR: &'static str = "input[name='__EVENTVALIDATION']";

/// The form field for the user name.
pub const USERNAME_FIELD: &'static str = "m$Content$username";

/// The form field for the password.
pub const PASSWORD_FIELD: &'static str = "m$Content$password";

/// The second form field for the password, which the page fills in by script.
pub const HIDDEN_PASSWORD_FIELD: &'static str = "m$Content$passwordHidden";

/// The form field for the validation token.
pub const TOKEN_FIELD: &'static str = "__EVENTVALIDATION";

/// The form field that names the control that was pressed.
pub const TARGET_FIELD: &'static str = "__EVENTTARGET";

/// The control that the form says was pressed: the login button.
pub const SUBMIT_CONTROL: &'static str = "m$Content$submitbtn2";

/// A form field that the page always sends; it stays empty.
pub const ARGUMENT_FIELD: &'static str = "__EVENTARGUMENT";

/// A form field that the page always sends with a fixed value.
pub const FOOTER_FIELD: &'static str = "masterfootervalue";

/// The value of [`FOOTER_FIELD`].
pub const FOOTER_VALUE: &'static str = "X1!ÆØÅ";

/// A form field that the page always sends; it stays empty.
pub const POSTBACK_FIELD: &'static str = "LectioPostbackId";

/// What the failure of a login is introduced with.
pub const LOGIN_FAILURE_PREFIX: &'static str = "Failed to log in: ";

/// The validation token that the login page `body` holds: the `value` of the first
/// field that the selector matches.
pub open spec fn token_of_page(body: Seq<char>) -> Option<Seq<char>> {
    match first_match(parsed_document(body), TOKEN_SELECTOR@) {
        Some(field) => element_attr(field, "value"@),
        None => None,
    }
}

/// What the search for the token on the login page `body` ends with: the token, or the
/// reason why there is none. A page that is too long to be parsed is turned down.
pub open spec fn token_outcome(body: Seq<char>) -> Result<Seq<char>, ScrapeError> {
    if !page_fits(body) {
        Err(ScrapeError::PageTooLarge)
    } else {
        match token_of_page(body) {
            Some(token) => Ok(token),
            None => Err(ScrapeError::TokenNotFound),
        }
    }
}

/// Finds the validation token on the login page.
pub fn find_token(body: &str) -> (r: Result<String, ScrapeError>)
    ensures
        match token_outcome(body@) {
            Ok(token) => r is Ok && r->Ok_0@ == token,
            Err(error) => r == Err::<String, ScrapeError>(error),
        },
{
    if !fits(body) {
        return Err(ScrapeError::PageTooLarge);
    }
    let document = parse_document(body);
    let fields = select_all(&document, TOKEN_SELECTOR);
    if fields.len() > 0 {
        match attr_of(&fields[0], "value") {
            Some(token) => Ok(token),
            None => Err(ScrapeError::TokenNotFound),
        }
    } else {
        Err(ScrapeError::TokenNotFound)
    }
}

/// The fields of the login form, in order. The password goes in twice, under two
/// names; two fields that the page's own form always sends stay empty.
pub open spec fn login_form_of(username: Seq<char>, password: Seq<char>, token: Seq<char>) -> Seq<
    (Seq<char>, Seq<char>),
> {
    seq![
        (USERNAME_FIELD@, username),
        (PASSWORD_FIELD@, password),
        (HIDDEN_PASSWORD_FIELD@, password),
        (TOKEN_FIELD@, token),
        (TARGET_FIELD@, SUBMIT_CONTROL@),
        (ARGUMENT_FIELD@, Seq::empty()),
        (FOOTER_FIELD@, FOOTER_VALUE@),
        (POSTBACK_FIELD@, Seq::empty()),
    ]
}

/// The views of the fields in `form`.
pub open spec fn form_view(form: Seq<(String, String)>) -> Seq<(Seq<char>, Seq<char>)> {
    Seq::new(form.len(), |i: int| (form[i].0@, form[i].1@))
}

fn field(name: &str, value: &str) -> (r: (String, String))
    ensures
        r.0@ == name@,
        r.1@ == value@,
{
    (String::from_str(name), String::from_str(value))
}

/// Fills in the login form.
pub fn login_form(username: &str, password: &str, token: &str) -> (r: Vec<(String, String)>)
    ensures
        form_view(r@) == login_form_of(username@, password@, token@),
{
    let mut r: Vec<(String, String)> = Vec::new();
    r.push(field(USERNAME_FIELD, username));
    r.push(field(PASSWORD_FIELD, password));
    r.push(field(HIDDEN_PASSWORD_FIELD, password));
    r.push(field(TOKEN_FIELD, token));
    r.push(field(TARGET_FIELD, SUBMIT_CONTROL));
    r.push((String::from_str(ARGUMENT_FIELD), String::new()));
    r.push(field(FOOTER_FIELD, FOOTER_VALUE));
    r.push((String::from_str(POSTBACK_FIELD), String::new()));
    assert(form_view(r@) =~= login_form_of(username@, password@, token@));
    r
}

/// What to do once the fetch of the login page has ended: the form to send back, or
/// the reason why the login ends here.
pub open spec fn form_after_page(
    fetched: Result<PageResponse, ScrapeError>,
    username: Seq<char>,
    password: Seq<char>,
) -> Result<Seq<(Seq<char>, Seq<char>)>, ScrapeError> {
    match fetched {
        Err(error) => Err(error),
        Ok(page) => match token_outcome(page.body@) {
            Ok(token) => Ok(login_form_of(username, password, token)),
            Err(error) => Err(error),
        },
    }
}

/// Decides what follows the fetch of the login page. A fetch that did not complete ends
/// the login; so does a page without a validation token, whatever its status, and a
/// page that is too long to be parsed. Otherwise the filled-in form is to be sent to
/// the address that the page came from.
pub fn prepare_login(fetched: Result<PageResponse, ScrapeError>, username: &str, password: &str) -> (r:
    Result<Vec<(String, String)>, ScrapeError>)
    ensures
        match form_after_page(fetched, username@, password@) {
            Ok(form) => r is Ok && form_view(r->Ok_0@) == form,
            Err(error) => r == Err::<Vec<(String, String)>, ScrapeError>(error),
        },
{
    match fetched {
        Err(error) => Err(error),
        Ok(page) => match find_token(page.body.as_str()) {
            Ok(token) => Ok(login_form(username, password, token.as_str())),
            Err(error) => Err(error),
        },
    }
}

/// What a login attempt ends with once the form was sent: any answer of the server
/// makes `client` the new session, as the server does not say whether it took the
/// credentials. Only a request that did not complete fails the attempt.
pub fn after_submit<S>(client: S, posted: Result<PageResponse, ScrapeError>) -> (r: Result<
    S,
    ScrapeError,
>)
    ensures
        r == match posted {
            Ok(_) => Ok::<S, ScrapeError>(client),
            Err(error) => Err::<S, ScrapeError>(error),
        },
{
    match posted {
        Ok(_) => Ok(client),
        Err(error) => Err(error),
    }
}

/// How a login attempt with the new client `client` ends. Where the login page gave a
/// form, the form is sent and `posted` is how that request ended; where it gave none,
/// nothing is sent and the attempt has failed already.
pub open spec fn attempt_outcome<S>(
    client: S,
    fetched: Result<PageResponse, ScrapeError>,
    username: Seq<char>,
    password: Seq<char>,
    posted: Result<PageResponse, ScrapeError>,
) -> Result<S, ScrapeError> {
    match form_after_page(fetched, username, password) {
        Err(error) => Err(error),
        Ok(_) => match posted {
            Ok(_) => Ok(client),
            Err(error) => Err(error),
        },
    }
}

/// What the store holds after a login attempt: the new session after a success, what
/// it held before after a failure.
pub open spec fn store_after<S>(before: Option<S>, attempt: Result<S, ScrapeError>) -> Option<S> {
    match attempt {
        Ok(client) => Some(client),
        Err(_) => before,
    }
}

/// A login page without a validation token ends the login before anything is sent:
/// the page gives no form, the attempt fails with `TokenNotFound` whatever a request
/// would have brought, no client comes out of it, and the store keeps what it held.
/// This holds of every page that is short enough to be parsed.
pub proof fn lemma_missing_token_ends_login<S>(
    page: PageResponse,
    username: Seq<char>,
    password: Seq<char>,
    client: S,
    posted: Result<PageResponse, ScrapeError>,
    before: Option<S>,
)
    ensures
        page_fits(page.body@) && token_of_page(page.body@) is None ==> {
            &&& form_after_page(Ok(page), username, password) == Err::<
                Seq<(Seq<char>, Seq<char>)>,
                ScrapeError,
            >(ScrapeError::TokenNotFound)
            &&& attempt_outcome(client, Ok(page), username, password, posted) == Err::<
                S,
                ScrapeError,
            >(ScrapeError::TokenNotFound)
            &&& store_after(
                before,
                attempt_outcome(client, Ok(page), username, password, posted),
            ) == before
        },
{
}

/// What the caller is told about a login.
#[derive(Debug, PartialEq, Eq)]
pub enum LoginReport {
    Success,
    /// The login failed; the text says why.
    Error(String),
}

/// Whether `report` is what the caller is told about a login that ended with `outcome`.
pub open spec fn report_matches<S>(report: LoginReport, outcome: Result<S, ScrapeError>) -> bool {
    match outcome {
        Ok(_) => report is Success,
        Err(error) => report is Error && report->Error_0@ == LOGIN_FAILURE_PREFIX@
            + error.message_text(),
    }
}

/// Ends a login attempt. After a success the new session replaces the one in the
/// store; after a failure the store is left as it was.
pub fn login<S>(store: &mut ClientManager<S>, attempt: Result<S, ScrapeError>) -> (r: LoginReport)
    ensures
        report_matches(r, attempt),
        final(store)@ == store_after(old(store)@, attempt),
{
    match attempt {
        Ok(client) => {
            store.set_client(client);
            LoginReport::Success
        },
        Err(error) => {
            let mut text = String::from_str(LOGIN_FAILURE_PREFIX);
            let reason = error.message();
            text.append(reason.as_str());
            LoginReport::Error(text)
        },
    }
}

} // verus!
