//! The addresses of the portal's pages.
use vstd::prelude::*;
use crate::text::{decimal_digits, decimal_text};

verus! {

/// The page that lists the institutions; it needs no session.
pub const DIRECTORY_URL: &'static str = "https://www.lectio.dk/lectio/login_list.aspx";

/// What every institution's address starts with.
pub const BASE_URL: &'static str = "https://www.lectio.dk/lectio/";

/// The login page of an institution.
pub const LOGIN_PAGE: &'static str = "/login.aspx";

/// The front page of an institution.
pub const DASHBOARD_PAGE: &'static str = "/forside.aspx";

/// The timetable page.
pub const SCHEDULE_PAGE: &'static str = "/SkemaNy.aspx";

/// The page of absence figures.
pub const ABSENCE_PAGE: &'static str = "/subnav/fravaerelev.aspx";

/// The page that lists the assignments.
pub const ASSIGNMENTS_PAGE: &'static str = "/OpgaverElev.aspx";

/// The page of the grade report.
pub const GRADES_PAGE: &'static str = "/grades/grade_report.aspx";

/// What comes before the week in the address of the timetable.
pub const WEEK_QUERY: &'static str = "?week=";

/// The address of `page` at the institution `school_id`.
pub open spec fn page_address(school_id: Seq<char>, page: Seq<char>) -> Seq<char> {
    BASE_URL@ + school_id + page
}

/// The address of `page` at the institution `school_id`. The identifier is taken as
/// it is: it is meant to come from the directory of institutions.
pub fn page_url(school_id: &str, page: &str) -> (r: String)
    ensures
        r@ == page_address(school_id@, page@),
{
    let mut r = String::from_str(BASE_URL);
    r.append(school_id);
    r.append(page);
    r
}

/// The address of the login page.
pub fn login_url(school_id: &str) -> (r: String)
    ensures
        r@ == page_address(school_id@, LOGIN_PAGE@),
{
    page_url(school_id, LOGIN_PAGE)
}

/// The address of the front page.
pub fn dashboard_url(school_id: &str) -> (r: String)
    ensures
        r@ == page_address(school_id@, DASHBOARD_PAGE@),
{
    page_url(school_id, DASHBOARD_PAGE)
}

/// The address of the page of absence figures.
pub fn absence_url(school_id: &str) -> (r: String)
    ensures
        r@ == page_address(school_id@, ABSENCE_PAGE@),
{
    page_url(school_id, ABSENCE_PAGE)
}

/// The address of the page that lists the assignments.
pub fn assignments_url(school_id: &str) -> (r: String)
    ensures
        r@ == page_address(school_id@, ASSIGNMENTS_PAGE@),
{
    page_url(school_id, ASSIGNMENTS_PAGE)
}

/// The address of the page of the grade report.
pub fn grades_url(school_id: &str) -> (r: String)
    ensures
        r@ == page_address(school_id@, GRADES_PAGE@),
{
    page_url(school_id, GRADES_PAGE)
}

/// A week of a year as the timetable page wants it: the week in at least two digits,
/// then the year.
pub open spec fn week_code(week: u8, year: u16) -> Seq<char> {
    (if week < 10 {
        "0"@
    } else {
        ""@
    }) + decimal_digits(week as nat) + decimal_digits(year as nat)
}

/// The address of the timetable: that of the current week, or of the given week of `year`.
pub open spec fn schedule_address(school_id: Seq<char>, week: Option<u8>, year: u16) -> Seq<char> {
    match week {
        None => page_address(school_id, SCHEDULE_PAGE@),
        Some(week) => page_address(school_id, SCHEDULE_PAGE@) + WEEK_QUERY@ + week_code(week, year),
    }
}

/// The address of the timetable. `year` is the current calendar year; it only counts
/// where a week is asked for.
pub fn schedule_url(school_id: &str, week: Option<u8>, year: u16) -> (r: String)
    ensures
        r@ == schedule_address(school_id@, week, year),
{
    let mut r = page_url(school_id, SCHEDULE_PAGE);
    match week {
        None => {},
        Some(week) => {
            r.append(WEEK_QUERY);
            r.append(if week < 10 { "0" } else { "" });
            let number = decimal_text(week as u64);
            let digits = decimal_text(year as u64);
            r.append(number.as_str());
            r.append(digits.as_str());
            assert(r@ =~= schedule_address(school_id@, Some(week), year));
        },
    }
    r
}

} // verus!
