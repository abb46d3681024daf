use lectio_scraper::assignments::{
    assignment_from_cells, assignments_from_rows, get_assignments, scrape_assignments,
};
use lectio_scraper::deadline::DateTime;
use lectio_scraper::error::{PageResponse, ScrapeError};
use lectio_scraper::metrics::{Effort, Urgency};

fn now() -> DateTime {
    DateTime { year: 2024, month: 1, day: 1, hour: 0, minute: 0 }
}

fn cells(texts: Vec<&str>) -> Vec<String> {
    texts.into_iter().map(|t| t.to_string()).collect()
}

fn full_row(title: &str, deadline: &str, effort: &str) -> Vec<String> {
    cells(vec!["35", "2a MA", title, deadline, effort, "Afleveret", "0 %", "", "note", "12", "mine"])
}

#[test]
fn a_row_of_eleven_cells_gives_an_assignment() {
    let a = assignment_from_cells(&full_row("Aflevering 1", "02/01-2024 03:04", "2,50"), &now());
    assert_eq!(a.week, "35");
    assert_eq!(a.team, "2a MA");
    assert_eq!(a.title, "Aflevering 1");
    assert_eq!(a.deadline, "02/01-2024 03:04 (1 day, 3 hours, 4 minutes)");
    assert_eq!(a.student_time, Effort { millis: 2500 });
    assert_eq!(a.status, "Afleveret");
    assert_eq!(a.absence_percent, "0 %");
    assert_eq!(a.follow_up, "");
    assert_eq!(a.assignment_note, "note");
    assert_eq!(a.grade, "12");
    assert_eq!(a.student_note, "mine");
    assert_eq!(a.urgency, Urgency { numerator: 1000, denominator: 1_624_000 + 2500 });
}

#[test]
fn an_assignment_with_a_past_or_unreadable_deadline() {
    let past = assignment_from_cells(&full_row("t", "01/01-2000 00:00", "1"), &now());
    assert_eq!(past.deadline, "01/01-2000 00:00 (deadline passed)");
    assert_eq!(past.urgency, Urgency { numerator: 0, denominator: 1 });
    let unreadable = assignment_from_cells(&full_row("t", "snart", "x"), &now());
    assert_eq!(unreadable.deadline, "snart (deadline passed)");
    assert_eq!(unreadable.urgency, Urgency { numerator: 10, denominator: 1 });
    assert_eq!(unreadable.student_time, Effort { millis: 0 });
}

#[test]
fn rows_of_fewer_than_eleven_cells_give_no_assignment() {
    let rows = vec![
        cells(vec![]),
        cells(vec!["1", "2", "3", "4", "5", "6", "7", "8", "9", "10"]),
        full_row("kept", "31/12-2099 23:59", "2,00"),
        cells(vec!["header"]),
        cells(vec!["1", "2", "second", "4", "5", "6", "7", "8", "9", "10", "11", "12"]),
    ];
    let list = assignments_from_rows(&rows, &now());
    assert_eq!(list.len(), 2);
    assert!(list.len() < rows.len());
    assert_eq!(list[0].title, "kept");
    assert_eq!(list[1].title, "second");
    assert_eq!(list[1].student_note, "11");
}

#[test]
fn only_short_rows_give_nothing() {
    let rows = vec![cells(vec!["a"]), cells(vec!["1", "2", "3", "4", "5", "6", "7", "8", "9", "10"])];
    assert_eq!(assignments_from_rows(&rows, &now()).len(), 0);
    assert_eq!(assignments_from_rows(&Vec::new(), &now()).len(), 0);
}

#[test]
fn assignments_are_read_off_the_page() {
    let body = "<html><body><table>\
        <tr><th>Uge</th><th>Hold</th></tr>\
        <tr><td>35</td><td><span>2a</span> MA</td><td> <a href=\"x\">Aflevering 1</a> </td>\
        <td>31/12-2099 23:59</td><td>2,00</td><td>Venter</td><td>0 %</td><td></td>\
        <td>Husk <b>bilag</b></td><td></td><td>&nbsp;</td></tr>\
        <tr><td>only</td><td>two</td></tr>\
        </table></body></html>";
    let response = PageResponse { status: 200, body: body.to_string() };
    let list = scrape_assignments(&response, &now()).unwrap();
    assert_eq!(list.len(), 1);
    let a = &list[0];
    assert_eq!(a.week, "35");
    assert_eq!(a.team, "2a MA");
    assert_eq!(a.title, "Aflevering 1");
    assert_eq!(a.deadline, "31/12-2099 23:59 (27758 days, 23 hours, 59 minutes)");
    assert_eq!(a.student_time, Effort { millis: 2000 });
    assert_eq!(a.status, "Venter");
    assert_eq!(a.assignment_note, "Husk bilag");
    assert_eq!(a.student_note, "");
    assert_eq!(a.urgency, Urgency { numerator: 1000, denominator: 39_972_961_000 });
}

#[test]
fn a_failed_fetch_of_the_assignment_page_is_an_error() {
    let response = PageResponse { status: 500, body: String::new() };
    assert_eq!(scrape_assignments(&response, &now()).err(), Some(ScrapeError::Status(500)));
    assert_eq!(
        get_assignments(Ok(response), &now()).err(),
        Some("Error: Request failed with status 500".to_string())
    );
    assert_eq!(
        get_assignments(Err(ScrapeError::Transport("timed out".to_string())), &now()).err(),
        Some("Error: timed out".to_string())
    );
    let empty = PageResponse { status: 200, body: String::new() };
    assert_eq!(get_assignments(Ok(empty), &now()).unwrap().len(), 0);
}
