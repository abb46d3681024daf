use lectio_scraper::absence::{
    absence_from_cells, absence_from_rows, get_absence, scrape_absence, AbsenceData,
    AbsenceDetail, WritingDetail,
};
use lectio_scraper::error::{PageResponse, ScrapeError};

fn cells(texts: Vec<&str>) -> Vec<String> {
    texts.into_iter().map(|t| t.to_string()).collect()
}

fn detail(procent: &str, moduler: &str) -> AbsenceDetail {
    AbsenceDetail { procent: procent.to_string(), moduler: moduler.to_string() }
}

fn page(rows: &str) -> PageResponse {
    PageResponse {
        status: 200,
        body: format!(
            "<html><body><table id=\"other\"><tr><td>x</td></tr></table>\
             <table id=\"s_m_Content_Content_SFTabStudentAbsenceDataTable\">{}</table></body></html>",
            rows
        ),
    }
}

#[test]
fn a_row_of_nine_cells_gives_a_record() {
    let record = absence_from_cells(&cells(vec!["2a MA", "5%", "2/40", "4%", "2/50", "0%", "0/3", "1%", "0,5/5"]));
    assert_eq!(
        record,
        AbsenceData {
            team: "2a MA".to_string(),
            opgjort: detail("5%", "2/40"),
            for_the_year: detail("4%", "2/50"),
            writing: Some(WritingDetail {
                opgjort: detail("0%", "0/3"),
                for_the_year_wrting: detail("1%", "0,5/5"),
            }),
        }
    );
}

#[test]
fn a_record_takes_up_cells_one_to_eight_in_order() {
    let row = cells(vec!["t", "c1", "c2", "c3", "c4", "c5", "c6", "c7", "c8", "extra"]);
    let record = absence_from_cells(&row);
    let writing = record.writing.clone().unwrap();
    let figures = vec![
        record.opgjort.procent,
        record.opgjort.moduler,
        record.for_the_year.procent,
        record.for_the_year.moduler,
        writing.opgjort.procent,
        writing.opgjort.moduler,
        writing.for_the_year_wrting.procent,
        writing.for_the_year_wrting.moduler,
    ];
    assert_eq!(figures, row[1..9].to_vec());
    assert_eq!(record.team, "t");
}

#[test]
fn a_row_of_eight_cells_is_dropped() {
    let rows = vec![cells(vec!["short", "1", "2", "3", "4", "5", "6", "7"])];
    let table = absence_from_rows(&rows);
    assert_eq!(table.len(), 0);
    assert!(table.get("short").is_none());
}

#[test]
fn short_rows_are_dropped_among_others() {
    let rows = vec![
        cells(vec![]),
        cells(vec!["a", "1", "2", "3", "4", "5", "6", "7", "8"]),
        cells(vec!["b", "1", "2", "3", "4", "5", "6", "7"]),
        cells(vec!["c", "1", "2", "3", "4", "5", "6", "7", "8", "9"]),
    ];
    let table = absence_from_rows(&rows);
    assert_eq!(table.len(), 2);
    assert!(table.get("a").is_some());
    assert!(table.get("b").is_none());
    assert_eq!(table.get("c").unwrap().opgjort, detail("1", "2"));
}

#[test]
fn the_later_of_two_rows_for_one_course_counts() {
    let rows = vec![
        cells(vec!["a", "1", "2", "3", "4", "5", "6", "7", "8"]),
        cells(vec!["b", "1", "2", "3", "4", "5", "6", "7", "8"]),
        cells(vec!["a", "9", "8", "7", "6", "5", "4", "3", "2"]),
    ];
    let table = absence_from_rows(&rows);
    assert_eq!(table.len(), 2);
    assert_eq!(table.get("a").unwrap().opgjort, detail("9", "8"));
    assert_eq!(table.get("b").unwrap().opgjort, detail("1", "2"));
    let keys: Vec<String> = table.entries().iter().map(|e| e.0.clone()).collect();
    assert_eq!(keys, vec!["a", "b"]);
}

#[test]
fn the_absence_table_is_read_off_the_page() {
    let response = page(
        "<tr><th>Hold</th><th>a</th><th>b</th><th>c</th><th>d</th><th>e</th><th>f</th><th>g</th><th>h</th></tr>\
         <tr><td> <a href=\"#\">2a <b>MA</b></a> </td><td>5%</td><td>2/40</td><td>4%</td><td>2/50</td>\
         <td>0%</td><td>0/3</td><td>1%</td><td> 0,5/5\n</td></tr>\
         <tr><td>short</td><td>1</td><td>2</td><td>3</td><td>4</td><td>5</td><td>6</td><td>7</td></tr>",
    );
    let table = scrape_absence(&response).unwrap();
    assert_eq!(table.len(), 1);
    let record = table.get("2a MA").unwrap();
    assert_eq!(record.team, "2a MA");
    assert_eq!(record.opgjort, detail("5%", "2/40"));
    assert_eq!(record.for_the_year, detail("4%", "2/50"));
    assert_eq!(
        record.writing,
        Some(WritingDetail {
            opgjort: detail("0%", "0/3"),
            for_the_year_wrting: detail("1%", "0,5/5"),
        })
    );
    assert!(table.get("short").is_none());
    assert!(table.get("x").is_none());
}

#[test]
fn a_page_without_the_table_is_an_error() {
    let response = PageResponse {
        status: 200,
        body: "<html><body><table><tr><td>a</td></tr></table></body></html>".to_string(),
    };
    assert_eq!(scrape_absence(&response).err(), Some(ScrapeError::SectionNotFound));
    assert_eq!(get_absence(Ok(response)).err(), Some("Error: Section not found".to_string()));
}

#[test]
fn an_empty_table_gives_no_records() {
    let table = scrape_absence(&page("")).unwrap();
    assert_eq!(table.len(), 0);
}

#[test]
fn a_failed_fetch_of_the_absence_page_is_an_error() {
    let response = PageResponse { status: 404, body: page("").body };
    assert_eq!(scrape_absence(&response).err(), Some(ScrapeError::Status(404)));
    let response = PageResponse { status: 199, body: String::new() };
    assert_eq!(scrape_absence(&response).err(), Some(ScrapeError::Status(199)));
    let response = PageResponse { status: 300, body: String::new() };
    assert_eq!(
        get_absence(Ok(response)).err(),
        Some("Error: Request failed with status 300".to_string())
    );
    assert_eq!(
        get_absence(Err(ScrapeError::Transport("connection refused".to_string()))).err(),
        Some("Error: connection refused".to_string())
    );
    assert_eq!(
        get_absence(Err(ScrapeError::SessionMissing)).err(),
        Some("Error: Client is not initialized. Please login first.".to_string())
    );
    let response = PageResponse { status: 299, body: page("").body };
    assert!(get_absence(Ok(response)).is_ok());
}
