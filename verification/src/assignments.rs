//! The assignment list: one record for each table row that is wide enough.
use vstd::prelude::*;
use crate::deadline::{parse_deadline, DateTime};
use crate::error::{unreadable, PageResponse, ScrapeError};
use crate::html::{
    cell_text_each, cell_text_of_each, document_matches, parse_document, parsed_document,
    select_all, TextMode,
};
use crate::metrics::{
    countdown, countdown_of, effort_of, read_effort, urgency, urgency_score, Effort, Urgency,
};

verus! {

/// The number of cells that a table row needs to be read as an assignment.
pub const ASSIGNMENT_CELLS: usize = 11;

/// One assignment, as the list page shows it, with its derived figures.
#[derive(Clone, Debug, PartialEq, Eq)]
pub struct Assignment {
    pub week: String,
    pub team: String,
    pub title: String,
    /// The deadline as written, followed by how long is left, in brackets.
    pub deadline: String,
    pub student_time: Effort,
    pub status: String,
    pub absence_percent: String,
    pub follow_up: String,
    pub assignment_note: String,
    pub grade: String,
    pub student_note: String,
    pub urgency: Urgency,
}

/// What an [`Assignment`] holds.
pub ghost struct AssignmentView {
    pub week: Seq<char>,
    pub team: Seq<char>,
    pub title: Seq<char>,
    pub deadline: Seq<char>,
    pub student_time: Effort,
    pub status: Seq<char>,
    pub absence_percent: Seq<char>,
    pub follow_up: Seq<char>,
    pub assignment_note: Seq<char>,
    pub grade: Seq<char>,
    pub student_note: Seq<char>,
    pub urgency: Urgency,
}

impl View for Assignment {
    type V = AssignmentView;

    open spec fn view(&self) -> AssignmentView {
        AssignmentView {
            week: self.week@,
            team: self.team@,
            title: self.title@,
            deadline: self.deadline@,
            student_time: self.student_time,
            status: self.status@,
            absence_percent: self.absence_percent@,
            follow_up: self.follow_up@,
            assignment_note: self.assignment_note@,
            grade: self.grade@,
            student_note: self.student_note@,
            urgency: self.urgency,
        }
    }
}

/// The deadline as written, followed by how long is left from `now`, in brackets.
pub open spec fn deadline_with_countdown(deadline: Seq<char>, now: DateTime) -> Seq<char> {
    deadline + " ("@ + countdown_of(parse_deadline(deadline), now) + ")"@
}

/// The assignment that a row's cells describe; the cells are taken by position.
pub open spec fn assignment_of(cells: Seq<Seq<char>>, now: DateTime) -> AssignmentView
    recommends
        cells.len() >= ASSIGNMENT_CELLS,
{
    let effort = effort_of(cells[4]);
    AssignmentView {
        week: cells[0],
        team: cells[1],
        title: cells[2],
        deadline: deadline_with_countdown(cells[3], now),
        student_time: effort,
        status: cells[5],
        absence_percent: cells[6],
        follow_up: cells[7],
        assignment_note: cells[8],
        grade: cells[9],
        student_note: cells[10],
        urgency: urgency_score(parse_deadline(cells[3]), now, effort),
    }
}

/// The assignments that `rows` describe, in order: one for each row of at least
/// eleven cells. Shorter rows describe none.
pub open spec fn assignments_of(rows: Seq<Seq<Seq<char>>>, now: DateTime) -> Seq<AssignmentView>
    decreases rows.len(),
{
    if rows.len() == 0 {
        Seq::empty()
    } else {
        let before = assignments_of(rows.drop_last(), now);
        if rows.last().len() >= ASSIGNMENT_CELLS {
            before.push(assignment_of(rows.last(), now))
        } else {
            before
        }
    }
}

/// The views of the assignments in `list`.
pub open spec fn assignment_views(list: Seq<Assignment>) -> Seq<AssignmentView> {
    Seq::new(list.len(), |i: int| list[i]@)
}

/// Reads one row as an assignment.
pub fn assignment_from_cells(cells: &Vec<String>, now: &DateTime) -> (r: Assignment)
    requires
        cells.len() >= ASSIGNMENT_CELLS,
        now.valid(),
    ensures
        r@ == assignment_of(cells.deep_view(), *now),
{
    let raw_deadline = &cells[3];
    let effort = read_effort(cells[4].as_str());
    let score = urgency(raw_deadline.as_str(), effort, now);
    let left = countdown(raw_deadline.as_str(), now);
    let mut deadline = raw_deadline.clone();
    deadline.append(" (");
    deadline.append(left.as_str());
    deadline.append(")");
    Assignment {
        week: cells[0].clone(),
        team: cells[1].clone(),
        title: cells[2].clone(),
        deadline,
        student_time: effort,
        status: cells[5].clone(),
        absence_percent: cells[6].clone(),
        follow_up: cells[7].clone(),
        assignment_note: cells[8].clone(),
        grade: cells[9].clone(),
        student_note: cells[10].clone(),
        urgency: score,
    }
}

/// Reads the rows of the assignment table. Rows of fewer than eleven cells are left out.
pub fn assignments_from_rows(rows: &Vec<Vec<String>>, now: &DateTime) -> (r: Vec<Assignment>)
    requires
        now.valid(),
    ensures
        assignment_views(r@) == assignments_of(rows.deep_view(), *now),
{
    let mut r: Vec<Assignment> = Vec::new();
    let mut i: usize = 0;
    assert(rows.deep_view().take(0) =~= Seq::empty());
    assert(assignment_views(r@) =~= Seq::empty());
    while i < rows.len()
        invariant
            i <= rows.len(),
            now.valid(),
            assignment_views(r@) == assignments_of(rows.deep_view().take(i as int), *now),
        decreases rows.len() - i,
    {
        proof {
            let prefix = rows.deep_view().take(i + 1);
            assert(prefix.drop_last() =~= rows.deep_view().take(i as int));
            assert(prefix.last() == rows@[i as int].deep_view());
        }
        if rows[i].len() >= ASSIGNMENT_CELLS {
            let ghost before = assignment_views(r@);
            let record = assignment_from_cells(&rows[i], now);
            let ghost added = record@;
            r.push(record);
            assert(assignment_views(r@) =~= before.push(added));
        }
        i += 1;
    }
    assert(rows.deep_view().take(i as int) =~= rows.deep_view());
    r
}

/// The cell texts of every table row of the page `body`, row by row.
pub open spec fn assignment_rows(body: Seq<char>) -> Seq<Seq<Seq<char>>> {
    cell_text_each(document_matches(parsed_document(body), "tr"@), "td"@, TextMode::Packed)
}

/// Reads the assignments off the fetched assignment page. Every `tr` of the page is a
/// candidate row, its `td` descendants are the cells.
pub fn scrape_assignments(response: &PageResponse, now: &DateTime) -> (r: Result<
    Vec<Assignment>,
    ScrapeError,
>)
    requires
        now.valid(),
    ensures
        match unreadable(response.status, response.body@) {
            Some(error) => r == Err::<Vec<Assignment>, ScrapeError>(error),
            None => r is Ok && assignment_views(r->Ok_0@) == assignments_of(
                assignment_rows(response.body@),
                *now,
            ),
        },
{
    match response.check() {
        Err(error) => { return Err(error); },
        Ok(_) => {},
    }
    let document = parse_document(response.body.as_str());
    let rows = select_all(&document, "tr");
    let cells = cell_text_of_each(&rows, "td", TextMode::Packed);
    Ok(assignments_from_rows(&cells, now))
}

/// Answers a request for the assignments, from how the fetch of the assignment page
/// ended: the list, or the text of the failure.
pub fn get_assignments(fetched: Result<PageResponse, ScrapeError>, now: &DateTime) -> (r: Result<
    Vec<Assignment>,
    String,
>)
    requires
        now.valid(),
    ensures
        match fetched {
            Err(error) => r is Err && r->Err_0@ == error.report_text(),
            Ok(response) => match unreadable(response.status, response.body@) {
                Some(error) => r is Err && r->Err_0@ == error.report_text(),
                None => r is Ok && assignment_views(r->Ok_0@) == assignments_of(
                    assignment_rows(response.body@),
                    *now,
                ),
            },
        },
{
    match fetched {
        Err(error) => Err(error.report()),
        Ok(response) => match scrape_assignments(&response, now) {
            Ok(list) => Ok(list),
            Err(error) => Err(error.report()),
        },
    }
}

/// No more assignments come out than rows went in.
pub proof fn lemma_assignments_bounded(rows: Seq<Seq<Seq<char>>>, now: DateTime)
    ensures
        assignments_of(rows, now).len() <= rows.len(),
    decreases rows.len(),
{
    if rows.len() > 0 {
        lemma_assignments_bounded(rows.drop_last(), now);
    }
}

/// A row of fewer than eleven cells gives no assignment: with such a row among them,
/// fewer assignments come out than rows went in.
pub proof fn lemma_short_row_dropped(rows: Seq<Seq<Seq<char>>>, now: DateTime, short: int)
    requires
        0 <= short < rows.len(),
        rows[short].len() < ASSIGNMENT_CELLS,
    ensures
        assignments_of(rows, now).len() < rows.len(),
    decreases rows.len(),
{
    lemma_assignments_bounded(rows.drop_last(), now);
    if short < rows.len() - 1 {
        lemma_short_row_dropped(rows.drop_last(), now, short);
    }
}

/// Rows that are all too short give no assignment at all.
pub proof fn lemma_short_rows_give_nothing(rows: Seq<Seq<Seq<char>>>, now: DateTime)
    requires
        forall|i: int| 0 <= i < rows.len() ==> (#[trigger] rows[i]).len() < ASSIGNMENT_CELLS,
    ensures
        assignments_of(rows, now).len() == 0,
    decreases rows.len(),
{
    if rows.len() > 0 {
        assert forall|i: int| 0 <= i < rows.drop_last().len() implies (
        #[trigger] rows.drop_last()[i]).len() < ASSIGNMENT_CELLS by {
            assert(rows.drop_last()[i] == rows[i]);
        }
        lemma_short_rows_give_nothing(rows.drop_last(), now);
    }
}

} // verus!
