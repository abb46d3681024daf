//! Absence figures: one record for each course, read off the absence table.
use vstd::prelude::*;
use crate::error::{unreadable, PageResponse, ScrapeError};
use crate::html::{
    cell_text_each, cell_text_of_each, element_matches, first_match, parse_document,
    parsed_document, select_all, select_within, TextMode,
};
use crate::keyed::Keyed;

verus! {

/// The number of cells that a table row needs to be read as an absence record.
pub const ABSENCE_CELLS: usize = 9;

/// Selects the absence table.
pub const ABSENCE_TABLE: &'static str = "table#s_m_Content_Content_SFTabStudentAbsenceDataTable";

/// Absence over one period: as a percentage and as a number of modules.
#[derive(Clone, Debug, PartialEq, Eq)]
pub struct AbsenceDetail {
    pub procent: String,
    pub moduler: String,
}

/// Absence from written work over the two periods.
#[derive(Clone, Debug, PartialEq, Eq)]
pub struct WritingDetail {
    pub opgjort: AbsenceDetail,
    pub for_the_year_wrting: AbsenceDetail,
}

/// The absence figures of one course.
#[derive(Clone, Debug, PartialEq, Eq)]
pub struct AbsenceData {
    pub team: String,
    /// Up to the day of the report.
    pub opgjort: AbsenceDetail,
    /// Over the whole year.
    pub for_the_year: AbsenceDetail,
    pub writing: Option<WritingDetail>,
}

/// What an [`AbsenceDetail`] holds.
pub ghost struct AbsenceDetailView {
    pub procent: Seq<char>,
    pub moduler: Seq<char>,
}

/// What a [`WritingDetail`] holds.
pub ghost struct WritingDetailView {
    pub opgjort: AbsenceDetailView,
    pub for_the_year_wrting: AbsenceDetailView,
}

/// What an [`AbsenceData`] holds.
pub ghost struct AbsenceDataView {
    pub team: Seq<char>,
    pub opgjort: AbsenceDetailView,
    pub for_the_year: AbsenceDetailView,
    pub writing: Option<WritingDetailView>,
}

impl View for AbsenceDetail {
    type V = AbsenceDetailView;

    open spec fn view(&self) -> AbsenceDetailView {
        AbsenceDetailView { procent: self.procent@, moduler: self.moduler@ }
    }
}

impl View for WritingDetail {
    type V = WritingDetailView;

    open spec fn view(&self) -> WritingDetailView {
        WritingDetailView {
            opgjort: self.opgjort@,
            for_the_year_wrting: self.for_the_year_wrting@,
        }
    }
}

impl View for AbsenceData {
    type V = AbsenceDataView;

    open spec fn view(&self) -> AbsenceDataView {
        AbsenceDataView {
            team: self.team@,
            opgjort: self.opgjort@,
            for_the_year: self.for_the_year@,
            writing: match self.writing {
                Some(writing) => Some(writing@),
                None => None,
            },
        }
    }
}

/// The two figures that start at cell `at`: percentage, then modules.
pub open spec fn detail_at(cells: Seq<Seq<char>>, at: int) -> AbsenceDetailView {
    AbsenceDetailView { procent: cells[at], moduler: cells[at + 1] }
}

/// The record that a row's cells describe. The first cell names the course; cells 1 to
/// 4 are the absence up to the day of the report and over the year; cells 5 to 8 are the
/// same for written work.
pub open spec fn absence_of(cells: Seq<Seq<char>>) -> AbsenceDataView
    recommends
        cells.len() >= ABSENCE_CELLS,
{
    AbsenceDataView {
        team: cells[0],
        opgjort: detail_at(cells, 1),
        for_the_year: detail_at(cells, 3),
        writing: Some(
            WritingDetailView {
                opgjort: detail_at(cells, 5),
                for_the_year_wrting: detail_at(cells, 7),
            },
        ),
    }
}

/// The figures of a record in reading order: four for attendance, then the four for
/// written work where the record has them.
pub open spec fn figures(record: AbsenceDataView) -> Seq<Seq<char>> {
    seq![
        record.opgjort.procent,
        record.opgjort.moduler,
        record.for_the_year.procent,
        record.for_the_year.moduler,
    ] + match record.writing {
        Some(writing) => seq![
            writing.opgjort.procent,
            writing.opgjort.moduler,
            writing.for_the_year_wrting.procent,
            writing.for_the_year_wrting.moduler,
        ],
        None => Seq::empty(),
    }
}

/// A record takes up cells 1 to 8 of its row, each exactly once and in order: the first
/// four as attendance up to the day and over the year, the last four as the record for
/// written work.
pub proof fn lemma_record_partitions_row(cells: Seq<Seq<char>>)
    requires
        cells.len() >= ABSENCE_CELLS,
    ensures
        absence_of(cells).team == cells[0],
        figures(absence_of(cells)) == cells.subrange(1, 9),
        absence_of(cells).writing is Some,
        seq![
            absence_of(cells).opgjort.procent,
            absence_of(cells).opgjort.moduler,
            absence_of(cells).for_the_year.procent,
            absence_of(cells).for_the_year.moduler,
        ] == cells.subrange(1, 5),
        seq![
            absence_of(cells).writing->0.opgjort.procent,
            absence_of(cells).writing->0.opgjort.moduler,
            absence_of(cells).writing->0.for_the_year_wrting.procent,
            absence_of(cells).writing->0.for_the_year_wrting.moduler,
        ] == cells.subrange(5, 9),
{
    assert(figures(absence_of(cells)) =~= cells.subrange(1, 9));
    assert(seq![
        absence_of(cells).opgjort.procent,
        absence_of(cells).opgjort.moduler,
        absence_of(cells).for_the_year.procent,
        absence_of(cells).for_the_year.moduler,
    ] =~= cells.subrange(1, 5));
    assert(seq![
        absence_of(cells).writing->0.opgjort.procent,
        absence_of(cells).writing->0.opgjort.moduler,
        absence_of(cells).writing->0.for_the_year_wrting.procent,
        absence_of(cells).writing->0.for_the_year_wrting.moduler,
    ] =~= cells.subrange(5, 9));
}

/// The records that `rows` describe, by course: one for each row of at least nine
/// cells. Shorter rows describe none. Of two rows for one course the later counts.
pub open spec fn absence_map_of(rows: Seq<Seq<Seq<char>>>) -> Map<Seq<char>, AbsenceDataView>
    decreases rows.len(),
{
    if rows.len() == 0 {
        Map::empty()
    } else {
        let before = absence_map_of(rows.drop_last());
        if rows.last().len() >= ABSENCE_CELLS {
            before.insert(rows.last()[0], absence_of(rows.last()))
        } else {
            before
        }
    }
}

fn detail_from(cells: &Vec<String>, at: usize) -> (r: AbsenceDetail)
    requires
        at + 1 < cells.len(),
    ensures
        r@ == detail_at(cells.deep_view(), at as int),
{
    AbsenceDetail { procent: cells[at].clone(), moduler: cells[at + 1].clone() }
}

/// Reads one row as an absence record.
pub fn absence_from_cells(cells: &Vec<String>) -> (r: AbsenceData)
    requires
        cells.len() >= ABSENCE_CELLS,
    ensures
        r@ == absence_of(cells.deep_view()),
{
    AbsenceData {
        team: cells[0].clone(),
        opgjort: detail_from(cells, 1),
        for_the_year: detail_from(cells, 3),
        writing: Some(
            WritingDetail {
                opgjort: detail_from(cells, 5),
                for_the_year_wrting: detail_from(cells, 7),
            },
        ),
    }
}

/// Reads the rows of the absence table. Rows of fewer than nine cells are left out.
pub fn absence_from_rows(rows: &Vec<Vec<String>>) -> (r: Keyed<AbsenceData>)
    ensures
        r.wf(),
        r@ == absence_map_of(rows.deep_view()),
{
    let mut r: Keyed<AbsenceData> = Keyed::new();
    let mut i: usize = 0;
    assert(rows.deep_view().take(0) =~= Seq::empty());
    while i < rows.len()
        invariant
            i <= rows.len(),
            r.wf(),
            r@ == absence_map_of(rows.deep_view().take(i as int)),
        decreases rows.len() - i,
    {
        proof {
            let prefix = rows.deep_view().take(i + 1);
            assert(prefix.drop_last() =~= rows.deep_view().take(i as int));
            assert(prefix.last() == rows@[i as int].deep_view());
        }
        if rows[i].len() >= ABSENCE_CELLS {
            let record = absence_from_cells(&rows[i]);
            r.insert(rows[i][0].clone(), record);
        }
        i += 1;
    }
    assert(rows.deep_view().take(i as int) =~= rows.deep_view());
    r
}

/// The cell texts of the rows of `table`, row by row.
pub open spec fn table_rows(table: scraper::ElementRef<'_>) -> Seq<Seq<Seq<char>>> {
    cell_text_each(element_matches(table, "tr"@), "td"@, TextMode::Packed)
}

/// What the absence page `body` gives: the records of its absence table, by course,
/// where it has that table.
pub open spec fn absence_of_page(body: Seq<char>) -> Option<Map<Seq<char>, AbsenceDataView>> {
    match first_match(parsed_document(body), ABSENCE_TABLE@) {
        Some(table) => Some(absence_map_of(table_rows(table))),
        None => None,
    }
}

/// What becomes of a fetched absence page: why it cannot be read, or that it lacks the
/// absence table, or the records of that table.
pub open spec fn absence_outcome(status: u16, body: Seq<char>) -> Result<
    Map<Seq<char>, AbsenceDataView>,
    ScrapeError,
> {
    match unreadable(status, body) {
        Some(error) => Err(error),
        None => match absence_of_page(body) {
            Some(records) => Ok(records),
            None => Err(ScrapeError::SectionNotFound),
        },
    }
}

/// Reads the absence figures off the fetched absence page.
pub fn scrape_absence(response: &PageResponse) -> (r: Result<Keyed<AbsenceData>, ScrapeError>)
    ensures
        match absence_outcome(response.status, response.body@) {
            Ok(records) => r is Ok && r->Ok_0.wf() && r->Ok_0@ == records,
            Err(error) => r == Err::<Keyed<AbsenceData>, ScrapeError>(error),
        },
{
    match response.check() {
        Err(error) => { return Err(error); },
        Ok(_) => {},
    }
    let document = parse_document(response.body.as_str());
    let tables = select_all(&document, ABSENCE_TABLE);
    if tables.len() == 0 {
        return Err(ScrapeError::SectionNotFound);
    }
    let rows = select_within(&tables[0], "tr");
    let cells = cell_text_of_each(&rows, "td", TextMode::Packed);
    Ok(absence_from_rows(&cells))
}

/// Answers a request for the absence figures, from how the fetch of the absence page
/// ended: the records by course, or the text of the failure.
pub fn get_absence(fetched: Result<PageResponse, ScrapeError>) -> (r: Result<
    Keyed<AbsenceData>,
    String,
>)
    ensures
        match fetched {
            Err(error) => r is Err && r->Err_0@ == error.report_text(),
            Ok(response) => match absence_outcome(response.status, response.body@) {
                Ok(records) => r is Ok && r->Ok_0.wf() && r->Ok_0@ == records,
                Err(error) => r is Err && r->Err_0@ == error.report_text(),
            },
        },
{
    match fetched {
        Err(error) => Err(error.report()),
        Ok(response) => match scrape_absence(&response) {
            Ok(records) => Ok(records),
            Err(error) => Err(error.report()),
        },
    }
}

/// A row of fewer than nine cells leaves the records as they were.
pub proof fn lemma_short_row_ignored(rows: Seq<Seq<Seq<char>>>, row: Seq<Seq<char>>)
    requires
        row.len() < ABSENCE_CELLS,
    ensures
        absence_map_of(rows.push(row)) == absence_map_of(rows),
{
    assert(rows.push(row).drop_last() =~= rows);
}

/// Rows that are all too short give no record at all.
pub proof fn lemma_short_rows_give_nothing(rows: Seq<Seq<Seq<char>>>)
    requires
        forall|i: int| 0 <= i < rows.len() ==> (#[trigger] rows[i]).len() < ABSENCE_CELLS,
    ensures
        absence_map_of(rows) == Map::<Seq<char>, AbsenceDataView>::empty(),
    decreases rows.len(),
{
    if rows.len() > 0 {
        assert forall|i: int| 0 <= i < rows.drop_last().len() implies (
        #[trigger] rows.drop_last()[i]).len() < ABSENCE_CELLS by {
            assert(rows.drop_last()[i] == rows[i]);
        }
        lemma_short_rows_give_nothing(rows.drop_last());
    }
}

/// Every record is keyed by the course that it names.
pub proof fn lemma_records_keyed_by_team(rows: Seq<Seq<Seq<char>>>, team: Seq<char>)
    requires
        absence_map_of(rows).contains_key(team),
    ensures
        absence_map_of(rows)[team].team == team,
    decreases rows.len(),
{
    if rows.len() > 0 {
        if rows.last().len() >= ABSENCE_CELLS && rows.last()[0] == team {
        } else {
            lemma_records_keyed_by_team(rows.drop_last(), team);
        }
    }
}

} // verus!
