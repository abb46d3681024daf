//! The grade report: one record of grades for each course, and the notes on grades.
use vstd::prelude::*;
use crate::decimal::{decimal_millis, read_millis};
use crate::error::{unreadable, PageResponse, ScrapeError};
use crate::html::{
    attr_of, cell_text_each, cell_text_of_each, document_matches, element_attr, element_matches,
    element_text, first_match_within, parse_document, parsed_document, select_all, select_within,
    text_of, TextMode,
};
use crate::pattern::{captured_group, pattern_group};

verus! {

/// Selects the rows of the table of grades.
pub const GRADE_ROWS: &'static str = "table#s_m_Content_Content_karakterView_KarakterGV tr";

/// Selects the rows of the table of notes on grades.
pub const NOTE_ROWS: &'static str = "table#s_m_Content_Content_karakterView_KarakterNoterGrid tr";

/// Selects, inside a cell of the table of grades, the element that holds the grade.
pub const MARK_SELECTOR: &'static str = "div[title]";

/// Finds the weight in the tooltip of a grade.
pub const WEIGHT_PATTERN: &'static str = r"Vægt: ([0-9]+(?:[,.][0-9]+)?)";

/// The number of cells that a row needs to be read as a record of grades.
pub const GRADE_CELLS: usize = 7;

/// The number of cells that a row needs to be read as a note on a grade.
pub const NOTE_CELLS: usize = 5;

/// The weight of a grade that states none: one, in thousandths.
pub const DEFAULT_WEIGHT: u32 = 1000;

/// One grade with its weight in thousandths.
#[derive(Clone, Debug, PartialEq, Eq)]
pub struct GradeMark {
    pub grade: String,
    pub weight: u32,
}

/// The grades of one course.
#[derive(Clone, Debug, PartialEq, Eq)]
pub struct GradeRecord {
    pub team: String,
    pub subject: String,
    pub first_standpoint: Option<GradeMark>,
    pub second_standpoint: Option<GradeMark>,
    pub final_year: Option<GradeMark>,
    pub internal_exam: Option<GradeMark>,
    pub final_exam: Option<GradeMark>,
}

/// A note on a grade.
#[derive(Clone, Debug, PartialEq, Eq)]
pub struct GradeNote {
    pub team: String,
    pub grade_type: String,
    pub grade: String,
    pub date: String,
    pub note: String,
}

/// The grade report: the grades by course, and the notes on them.
#[derive(Clone, Debug, PartialEq, Eq)]
pub struct GradeReport {
    pub grades: Vec<GradeRecord>,
    pub grade_notes: Vec<GradeNote>,
}

/// What the page shows of the element that holds a grade.
#[derive(Clone, Debug, PartialEq, Eq)]
pub struct MarkCell {
    /// The grade as written.
    pub label: String,
    /// The tooltip, where the element has one.
    pub title: Option<String>,
}

/// What the page shows of one cell of the table of grades.
#[derive(Clone, Debug, PartialEq, Eq)]
pub struct GradeCell {
    /// The text of the whole cell.
    pub text: String,
    /// The element that holds the grade, where the cell has one.
    pub mark: Option<MarkCell>,
}

/// What a [`GradeMark`] holds.
pub ghost struct GradeMarkView {
    pub grade: Seq<char>,
    pub weight: u32,
}

/// What a [`GradeRecord`] holds.
pub ghost struct GradeRecordView {
    pub team: Seq<char>,
    pub subject: Seq<char>,
    pub first_standpoint: Option<GradeMarkView>,
    pub second_standpoint: Option<GradeMarkView>,
    pub final_year: Option<GradeMarkView>,
    pub internal_exam: Option<GradeMarkView>,
    pub final_exam: Option<GradeMarkView>,
}

/// What a [`GradeNote`] holds.
pub ghost struct GradeNoteView {
    pub team: Seq<char>,
    pub grade_type: Seq<char>,
    pub grade: Seq<char>,
    pub date: Seq<char>,
    pub note: Seq<char>,
}

/// What a [`MarkCell`] holds.
pub ghost struct MarkCellView {
    pub label: Seq<char>,
    pub title: Option<Seq<char>>,
}

/// What a [`GradeCell`] holds.
pub ghost struct GradeCellView {
    pub text: Seq<char>,
    pub mark: Option<MarkCellView>,
}

impl View for GradeMark {
    type V = GradeMarkView;

    open spec fn view(&self) -> GradeMarkView {
        GradeMarkView { grade: self.grade@, weight: self.weight }
    }
}

/// The view of a grade that may be missing.
pub open spec fn mark_view(mark: Option<GradeMark>) -> Option<GradeMarkView> {
    match mark {
        Some(mark) => Some(mark@),
        None => None,
    }
}

impl View for GradeRecord {
    type V = GradeRecordView;

    open spec fn view(&self) -> GradeRecordView {
        GradeRecordView {
            team: self.team@,
            subject: self.subject@,
            first_standpoint: mark_view(self.first_standpoint),
            second_standpoint: mark_view(self.second_standpoint),
            final_year: mark_view(self.final_year),
            internal_exam: mark_view(self.internal_exam),
            final_exam: mark_view(self.final_exam),
        }
    }
}

impl View for GradeNote {
    type V = GradeNoteView;

    open spec fn view(&self) -> GradeNoteView {
        GradeNoteView {
            team: self.team@,
            grade_type: self.grade_type@,
            grade: self.grade@,
            date: self.date@,
            note: self.note@,
        }
    }
}

impl View for MarkCell {
    type V = MarkCellView;

    open spec fn view(&self) -> MarkCellView {
        MarkCellView { label: self.label@, title: self.title.deep_view() }
    }
}

impl View for GradeCell {
    type V = GradeCellView;

    open spec fn view(&self) -> GradeCellView {
        GradeCellView {
            text: self.text@,
            mark: match self.mark {
                Some(mark) => Some(mark@),
                None => None,
            },
        }
    }
}

/// The views of the records in `list`.
pub open spec fn grade_views(list: Seq<GradeRecord>) -> Seq<GradeRecordView> {
    Seq::new(list.len(), |i: int| list[i]@)
}

/// The views of the notes in `list`.
pub open spec fn note_views(list: Seq<GradeNote>) -> Seq<GradeNoteView> {
    Seq::new(list.len(), |i: int| list[i]@)
}

/// The views of the cells in `cells`.
pub open spec fn cell_views(cells: Seq<GradeCell>) -> Seq<GradeCellView> {
    Seq::new(cells.len(), |i: int| cells[i]@)
}

/// The views of the cells in each of `rows`.
pub open spec fn row_views(rows: Seq<Vec<GradeCell>>) -> Seq<Seq<GradeCellView>> {
    Seq::new(rows.len(), |i: int| cell_views(rows[i]@))
}

/// The weight that the captured text states, in thousandths; one where nothing was
/// captured.
pub open spec fn weight_value(found: Option<Seq<char>>) -> u32 {
    match found {
        Some(text) => decimal_millis(text) as u32,
        None => DEFAULT_WEIGHT,
    }
}

/// The weight that a grade's tooltip states; one where there is no tooltip or it
/// states no weight.
pub open spec fn weight_of(title: Option<Seq<char>>) -> u32 {
    match title {
        Some(title) => weight_value(pattern_group(WEIGHT_PATTERN@, title, 1)),
        None => DEFAULT_WEIGHT,
    }
}

/// The grade that a cell holds, if it holds one.
pub open spec fn mark_of(cell: GradeCellView) -> Option<GradeMarkView> {
    match cell.mark {
        Some(mark) => Some(GradeMarkView { grade: mark.label, weight: weight_of(mark.title) }),
        None => None,
    }
}

/// The record that a row's cells describe: course, subject, then the five grades in
/// the order first standpoint, second standpoint, final-year grade, internal exam,
/// final exam.
pub open spec fn grade_of(cells: Seq<GradeCellView>) -> GradeRecordView
    recommends
        cells.len() >= GRADE_CELLS,
{
    GradeRecordView {
        team: cells[0].text,
        subject: cells[1].text,
        first_standpoint: mark_of(cells[2]),
        second_standpoint: mark_of(cells[3]),
        final_year: mark_of(cells[4]),
        internal_exam: mark_of(cells[5]),
        final_exam: mark_of(cells[6]),
    }
}

/// The note that a row's cells describe, the cells taken by position.
pub open spec fn note_of(cells: Seq<Seq<char>>) -> GradeNoteView
    recommends
        cells.len() >= NOTE_CELLS,
{
    GradeNoteView {
        team: cells[0],
        grade_type: cells[1],
        grade: cells[2],
        date: cells[3],
        note: cells[4],
    }
}

/// The records that `rows` describe, in order: one for each row of at least seven cells.
pub open spec fn grades_of(rows: Seq<Seq<GradeCellView>>) -> Seq<GradeRecordView>
    decreases rows.len(),
{
    if rows.len() == 0 {
        Seq::empty()
    } else {
        let before = grades_of(rows.drop_last());
        if rows.last().len() >= GRADE_CELLS {
            before.push(grade_of(rows.last()))
        } else {
            before
        }
    }
}

/// The notes that `rows` describe, in order: one for each row of at least five cells.
pub open spec fn notes_of(rows: Seq<Seq<Seq<char>>>) -> Seq<GradeNoteView>
    decreases rows.len(),
{
    if rows.len() == 0 {
        Seq::empty()
    } else {
        let before = notes_of(rows.drop_last());
        if rows.last().len() >= NOTE_CELLS {
            before.push(note_of(rows.last()))
        } else {
            before
        }
    }
}

/// The rows of a table without its header row.
pub open spec fn body_rows<T>(rows: Seq<T>) -> Seq<T> {
    if rows.len() == 0 {
        rows
    } else {
        rows.drop_first()
    }
}

/// The weight that the captured text states.
pub fn weight_from(found: Option<String>) -> (r: u32)
    ensures
        r == weight_value(found.deep_view()),
{
    match found {
        Some(text) => read_millis(text.as_str()),
        None => DEFAULT_WEIGHT,
    }
}

/// The grade that a cell holds, if it holds one.
pub fn mark_from(cell: &GradeCell) -> (r: Option<GradeMark>)
    ensures
        mark_view(r) == mark_of(cell@),
{
    match &cell.mark {
        Some(mark) => {
            let weight = match &mark.title {
                Some(title) => weight_from(captured_group(WEIGHT_PATTERN, title.as_str(), 1)),
                None => DEFAULT_WEIGHT,
            };
            Some(GradeMark { grade: mark.label.clone(), weight })
        },
        None => None,
    }
}

/// Reads one row as a record of grades.
pub fn grade_from_cells(cells: &Vec<GradeCell>) -> (r: GradeRecord)
    requires
        cells.len() >= GRADE_CELLS,
    ensures
        r@ == grade_of(cell_views(cells@)),
{
    GradeRecord {
        team: cells[0].text.clone(),
        subject: cells[1].text.clone(),
        first_standpoint: mark_from(&cells[2]),
        second_standpoint: mark_from(&cells[3]),
        final_year: mark_from(&cells[4]),
        internal_exam: mark_from(&cells[5]),
        final_exam: mark_from(&cells[6]),
    }
}

/// Reads one row as a note on a grade.
pub fn note_from_cells(cells: &Vec<String>) -> (r: GradeNote)
    requires
        cells.len() >= NOTE_CELLS,
    ensures
        r@ == note_of(cells.deep_view()),
{
    GradeNote {
        team: cells[0].clone(),
        grade_type: cells[1].clone(),
        grade: cells[2].clone(),
        date: cells[3].clone(),
        note: cells[4].clone(),
    }
}

/// Reads the rows of the table of grades, header row included: the first row is
/// skipped, and so are rows of fewer than seven cells.
pub fn grades_from_rows(rows: &Vec<Vec<GradeCell>>) -> (r: Vec<GradeRecord>)
    ensures
        grade_views(r@) == grades_of(body_rows(row_views(rows@))),
{
    let mut r: Vec<GradeRecord> = Vec::new();
    if rows.len() == 0 {
        assert(grade_views(r@) =~= Seq::empty());
        return r;
    }
    let ghost body = body_rows(row_views(rows@));
    let mut i: usize = 1;
    assert(body.take(0) =~= Seq::empty());
    assert(grade_views(r@) =~= Seq::empty());
    while i < rows.len()
        invariant
            1 <= i <= rows.len(),
            body == body_rows(row_views(rows@)),
            grade_views(r@) == grades_of(body.take(i - 1)),
        decreases rows.len() - i,
    {
        proof {
            let prefix = body.take(i as int);
            assert(prefix.drop_last() =~= body.take(i - 1));
            assert(prefix.last() == cell_views(rows@[i as int]@));
        }
        if rows[i].len() >= GRADE_CELLS {
            let ghost before = grade_views(r@);
            let record = grade_from_cells(&rows[i]);
            let ghost added = record@;
            r.push(record);
            assert(grade_views(r@) =~= before.push(added));
        }
        i += 1;
    }
    assert(body.take(i - 1) =~= body);
    r
}

/// Reads the rows of the table of notes, header row included: the first row is
/// skipped, and so are rows of fewer than five cells.
pub fn notes_from_rows(rows: &Vec<Vec<String>>) -> (r: Vec<GradeNote>)
    ensures
        note_views(r@) == notes_of(body_rows(rows.deep_view())),
{
    let mut r: Vec<GradeNote> = Vec::new();
    if rows.len() == 0 {
        assert(note_views(r@) =~= Seq::empty());
        assert(rows.deep_view() =~= Seq::empty());
        return r;
    }
    let ghost body = body_rows(rows.deep_view());
    let mut i: usize = 1;
    assert(body.take(0) =~= Seq::empty());
    assert(note_views(r@) =~= Seq::empty());
    while i < rows.len()
        invariant
            1 <= i <= rows.len(),
            body == body_rows(rows.deep_view()),
            note_views(r@) == notes_of(body.take(i - 1)),
        decreases rows.len() - i,
    {
        proof {
            let prefix = body.take(i as int);
            assert(prefix.drop_last() =~= body.take(i - 1));
            assert(prefix.last() == rows@[i as int].deep_view());
        }
        if rows[i].len() >= NOTE_CELLS {
            let ghost before = note_views(r@);
            let record = note_from_cells(&rows[i]);
            let ghost added = record@;
            r.push(record);
            assert(note_views(r@) =~= before.push(added));
        }
        i += 1;
    }
    assert(body.take(i - 1) =~= body);
    r
}

/// What the page shows of the cell `td` of the table of grades.
pub open spec fn grade_cell_of(td: scraper::ElementRef<'_>) -> GradeCellView {
    GradeCellView {
        text: element_text(td, TextMode::Packed),
        mark: match first_match_within(td, MARK_SELECTOR@) {
            Some(mark) => Some(
                MarkCellView {
                    label: element_text(mark, TextMode::Packed),
                    title: element_attr(mark, "title"@),
                },
            ),
            None => None,
        },
    }
}

/// What the page shows of the cells of the row `tr` of the table of grades.
pub open spec fn grade_cells_of(tr: scraper::ElementRef<'_>) -> Seq<GradeCellView> {
    let cells = element_matches(tr, "td"@);
    Seq::new(cells.len(), |i: int| grade_cell_of(cells[i]))
}

/// The rows of the table of grades on the page `body`, header row included.
pub open spec fn grade_rows_of(body: Seq<char>) -> Seq<Seq<GradeCellView>> {
    let rows = document_matches(parsed_document(body), GRADE_ROWS@);
    Seq::new(rows.len(), |i: int| grade_cells_of(rows[i]))
}

/// The rows of the table of notes on the page `body`, header row included.
pub open spec fn note_rows_of(body: Seq<char>) -> Seq<Seq<Seq<char>>> {
    cell_text_each(document_matches(parsed_document(body), NOTE_ROWS@), "td"@, TextMode::Packed)
}

fn grade_cell_from(td: &scraper::ElementRef<'_>) -> (r: GradeCell)
    ensures
        r@ == grade_cell_of(*td),
{
    let text = text_of(td, TextMode::Packed);
    let marks = select_within(td, MARK_SELECTOR);
    let mark = if marks.len() > 0 {
        Some(
            MarkCell {
                label: text_of(&marks[0], TextMode::Packed),
                title: attr_of(&marks[0], "title"),
            },
        )
    } else {
        None
    };
    GradeCell { text, mark }
}

fn grade_cells_from(tr: &scraper::ElementRef<'_>) -> (r: Vec<GradeCell>)
    ensures
        cell_views(r@) == grade_cells_of(*tr),
{
    let cells = select_within(tr, "td");
    let mut r: Vec<GradeCell> = Vec::new();
    let mut i: usize = 0;
    while i < cells.len()
        invariant
            i <= cells.len(),
            r.len() == i,
            forall|j: int| 0 <= j < i ==> (#[trigger] r@[j])@ == grade_cell_of(cells@[j]),
        decreases cells.len() - i,
    {
        r.push(grade_cell_from(&cells[i]));
        i += 1;
    }
    assert(cell_views(r@) =~= grade_cells_of(*tr));
    r
}

/// Reads the grade report off the fetched page. Each of the two tables is looked for
/// by itself; one that the page lacks gives an empty list.
pub fn scrape_grades(response: &PageResponse) -> (r: Result<GradeReport, ScrapeError>)
    ensures
        match unreadable(response.status, response.body@) {
            Some(error) => r == Err::<GradeReport, ScrapeError>(error),
            None => {
                &&& r is Ok
                &&& grade_views(r->Ok_0.grades@) == grades_of(
                    body_rows(grade_rows_of(response.body@)),
                )
                &&& note_views(r->Ok_0.grade_notes@) == notes_of(
                    body_rows(note_rows_of(response.body@)),
                )
            },
        },
{
    match response.check() {
        Err(error) => { return Err(error); },
        Ok(_) => {},
    }
    let document = parse_document(response.body.as_str());
    let grade_rows = select_all(&document, GRADE_ROWS);
    let mut rows: Vec<Vec<GradeCell>> = Vec::new();
    let mut i: usize = 0;
    while i < grade_rows.len()
        invariant
            i <= grade_rows.len(),
            rows.len() == i,
            forall|j: int|
                0 <= j < i ==> cell_views((#[trigger] rows@[j])@) == grade_cells_of(grade_rows@[j]),
        decreases grade_rows.len() - i,
    {
        rows.push(grade_cells_from(&grade_rows[i]));
        i += 1;
    }
    assert(row_views(rows@) =~= grade_rows_of(response.body@));
    let note_rows = select_all(&document, NOTE_ROWS);
    let note_cells = cell_text_of_each(&note_rows, "td", TextMode::Packed);
    Ok(GradeReport { grades: grades_from_rows(&rows), grade_notes: notes_from_rows(&note_cells) })
}

/// Answers a request for the grade report, from how the fetch of its page ended: the
/// report, or the text of the failure.
pub fn get_grades(fetched: Result<PageResponse, ScrapeError>) -> (r: Result<GradeReport, String>)
    ensures
        match fetched {
            Err(error) => r is Err && r->Err_0@ == error.report_text(),
            Ok(response) => match unreadable(response.status, response.body@) {
                Some(error) => r is Err && r->Err_0@ == error.report_text(),
                None => {
                    &&& r is Ok
                    &&& grade_views(r->Ok_0.grades@) == grades_of(
                        body_rows(grade_rows_of(response.body@)),
                    )
                    &&& note_views(r->Ok_0.grade_notes@) == notes_of(
                        body_rows(note_rows_of(response.body@)),
                    )
                },
            },
        },
{
    match fetched {
        Err(error) => Err(error.report()),
        Ok(response) => match scrape_grades(&response) {
            Ok(report) => Ok(report),
            Err(error) => Err(error.report()),
        },
    }
}

} // verus!
