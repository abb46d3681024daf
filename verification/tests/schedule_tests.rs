use lectio_scraper::error::{PageResponse, ScrapeError};
use lectio_scraper::schedule::{
    apply_rule, complete, detail_url, enrich, entry_from_block, field_from, get_schedule,
    lesson_blocks, read_detail, status_from, time_from, LessonBlock, LessonDetail, LessonStatus,
    ScheduleScrape, DAY_FALLBACK, DAY_PATTERN, DESCRIPTION_PATTERN, NOTE_PATTERN, RESOURCE_PATTERN,
    ROOM_FALLBACK, ROOM_PATTERN, TEACHER_FALLBACK, TEACHER_PATTERN,
};

const TOOLTIP: &str = "Ændret!\n2a MA\n9/9-2024 08:15 til 09:45\nHold: 2a MA\nLærer: Jens Jensen (JJ)\nLokale: 1.23\nResource: Projektor \nØvrigt indhold: Kapitel 3 Note: Husk lommeregner ";

fn block(tooltip: &str, link: Option<&str>, label: Option<&str>) -> LessonBlock {
    LessonBlock {
        tooltip: tooltip.to_string(),
        detail_link: link.map(|l| l.to_string()),
        label: label.map(|l| l.to_string()),
    }
}

fn ok(body: &str) -> Result<PageResponse, ScrapeError> {
    Ok(PageResponse { status: 200, body: body.to_string() })
}

fn timetable(blocks: &str) -> String {
    format!("<html><body><div class=\"s2skemabrikcontainer\">{}</div></body></html>", blocks)
}

const DETAIL: &str = "<html><body>\
    <div id=\"s_m_Content_Content_tocAndToolbar_inlineHomeworkDiv\"><p>Læs side 10</p><p>Opgave 3</p></div>\
    <div class=\"s2skemabrikcontent\">  ti 10/9 1. modul</div></body></html>";

#[test]
fn each_rule_reads_its_field() {
    assert_eq!(apply_rule(ROOM_PATTERN, false, ROOM_FALLBACK, TOOLTIP), "1.23");
    assert_eq!(apply_rule(TEACHER_PATTERN, false, TEACHER_FALLBACK, TOOLTIP), "Jens Jensen (JJ)");
    assert_eq!(apply_rule(RESOURCE_PATTERN, true, "", TOOLTIP), "Projektor");
    assert_eq!(apply_rule(DESCRIPTION_PATTERN, true, "", TOOLTIP), "Kapitel 3");
    assert_eq!(apply_rule(NOTE_PATTERN, true, "", TOOLTIP), "Husk lommeregner");
    assert_eq!(apply_rule(DAY_PATTERN, false, DAY_FALLBACK, "  fr 13/9"), "fr");
    assert_eq!(apply_rule(ROOM_PATTERN, false, ROOM_FALLBACK, "Lokaler: 1.23, 1.24\nx"), "1.23, 1.24");
}

#[test]
fn each_rule_falls_back_when_its_pattern_is_absent() {
    assert_eq!(apply_rule(ROOM_PATTERN, false, ROOM_FALLBACK, "nothing here"), "Room not found");
    assert_eq!(
        apply_rule(TEACHER_PATTERN, false, TEACHER_FALLBACK, "nothing here"),
        "Teacher not found"
    );
    assert_eq!(apply_rule(RESOURCE_PATTERN, true, "", "nothing here"), "");
    assert_eq!(apply_rule(DESCRIPTION_PATTERN, true, "", "nothing here"), "");
    assert_eq!(apply_rule(NOTE_PATTERN, true, "", "nothing here"), "");
    assert_eq!(apply_rule(DAY_PATTERN, false, DAY_FALLBACK, TOOLTIP), "Day not found");
    assert_eq!(apply_rule(DAY_PATTERN, false, DAY_FALLBACK, "x ma"), "Day not found");
}

#[test]
fn a_pattern_that_does_not_compile_gives_the_fallback() {
    assert_eq!(apply_rule("(unclosed", false, "fallback", "(unclosed"), "fallback");
    assert_eq!(apply_rule("no group", false, "fallback", "no group"), "fallback");
}

#[test]
fn captured_text_becomes_the_field() {
    assert_eq!(field_from(Some(" a ".to_string()), true, "f"), "a");
    assert_eq!(field_from(Some(" a ".to_string()), false, "f"), " a ");
    assert_eq!(field_from(None, true, "f"), "f");
    assert_eq!(status_from(None), LessonStatus::Normal);
    assert_eq!(status_from(Some("Aflyst!".to_string())), LessonStatus::Cancelled);
    assert_eq!(status_from(Some("Ændret!".to_string())), LessonStatus::Changed);
    assert_eq!(time_from(Some("08:15".to_string()), Some("09:45".to_string())), "08:15 - 09:45");
    assert_eq!(time_from(Some("08:15".to_string()), None), "Time not found");
    assert_eq!(time_from(None, None), "Time not found");
}

#[test]
fn status_labels() {
    assert_eq!(LessonStatus::Normal.label(), "normal");
    assert_eq!(LessonStatus::Changed.label(), "changed");
    assert_eq!(LessonStatus::Cancelled.label(), "cancelled");
}

#[test]
fn a_tooltip_is_taken_apart() {
    let entry = entry_from_block(&block(TOOLTIP, None, Some(" 2a MA\n")));
    assert_eq!(entry.status, LessonStatus::Changed);
    assert_eq!(entry.class_name, "2a MA");
    assert_eq!(entry.teacher, "Jens Jensen (JJ)");
    assert_eq!(entry.room, "1.23");
    assert_eq!(entry.description, "Kapitel 3");
    assert_eq!(entry.time, "08:15 - 09:45");
    assert_eq!(entry.day, "Day not found");
    assert_eq!(entry.homework, "");
    assert_eq!(entry.resources, "Projektor");
    assert_eq!(entry.notes, "Husk lommeregner");
}

#[test]
fn an_empty_tooltip_gives_every_fallback() {
    let entry = entry_from_block(&block("", None, None));
    assert_eq!(entry.status, LessonStatus::Normal);
    assert_eq!(entry.class_name, "");
    assert_eq!(entry.teacher, "Teacher not found");
    assert_eq!(entry.room, "Room not found");
    assert_eq!(entry.description, "");
    assert_eq!(entry.time, "Time not found");
    assert_eq!(entry.day, "Day not found");
    assert_eq!(entry.homework, "");
    assert_eq!(entry.resources, "");
    assert_eq!(entry.notes, "");
}

#[test]
fn a_cancelled_lesson_with_a_leading_weekday() {
    let entry = entry_from_block(&block("ma 9/9\nAflyst!\n10:00 til 11:30", None, None));
    assert_eq!(entry.status, LessonStatus::Cancelled);
    assert_eq!(entry.day, "ma");
    assert_eq!(entry.time, "10:00 - 11:30");
}

#[test]
fn the_detail_page_is_read() {
    let detail = read_detail(DETAIL).unwrap();
    assert_eq!(detail.homework, Some("Læs side 10 Opgave 3".to_string()));
    assert_eq!(detail.day_markup, Some("  ti 10/9 1. modul".to_string()));
    let empty = read_detail("<html><body><p>nothing</p></body></html>").unwrap();
    assert_eq!(empty, LessonDetail { homework: None, day_markup: None });
}

#[test]
fn the_detail_page_completes_an_entry() {
    let base = entry_from_block(&block(TOOLTIP, Some("/x"), Some("2a MA")));
    let full = enrich(base.clone(), &read_detail(DETAIL).unwrap());
    assert_eq!(full.homework, "Læs side 10 Opgave 3");
    assert_eq!(full.day, "ti");
    assert_eq!(full.room, base.room);
    assert_eq!(full.notes, base.notes);
    let bare = enrich(base.clone(), &LessonDetail { homework: None, day_markup: None });
    assert_eq!(bare.homework, "No detailed homework provided");
    assert_eq!(bare.day, "Day not found");
    let no_day = enrich(
        base.clone(),
        &LessonDetail { homework: Some(String::new()), day_markup: Some("<b>x</b>".to_string()) },
    );
    assert_eq!(no_day.homework, "");
    assert_eq!(no_day.day, "Day not found");
}

#[test]
fn a_detail_page_that_was_refused_leaves_the_entry_alone() {
    let base = entry_from_block(&block(TOOLTIP, Some("/x"), Some("2a MA")));
    let refused = PageResponse { status: 403, body: DETAIL.to_string() };
    assert_eq!(complete(base.clone(), &refused), Ok(base.clone()));
    let served = PageResponse { status: 200, body: DETAIL.to_string() };
    assert_eq!(complete(base.clone(), &served).unwrap().homework, "Læs side 10 Opgave 3");
}

#[test]
fn detail_addresses_are_relative_to_the_site() {
    assert_eq!(detail_url("/lectio/1/a.aspx?id=2"), "https://www.lectio.dk/lectio/1/a.aspx?id=2");
    assert_eq!(detail_url(""), "https://www.lectio.dk");
}

#[test]
fn lesson_blocks_are_found_on_the_timetable() {
    let body = timetable(
        "<a class=\"s2skemabrik\" href=\"/lectio/1/a.aspx?absid=7\" \
         data-tooltip=\"Aflyst!&#10;08:15 til 09:45&#10;Lokale: 2\">\
         <span data-lectiocontextcard=\"HE1\"> 2a <i>MA</i> </span></a>\
         <a class=\"s2skemabrik\">bare</a>\
         <a class=\"other\" href=\"/no\">not a block</a>",
    );
    let blocks = lesson_blocks(&body).unwrap();
    assert_eq!(blocks.len(), 2);
    assert_eq!(blocks[0].tooltip, "Aflyst!\n08:15 til 09:45\nLokale: 2");
    assert_eq!(blocks[0].detail_link, Some("/lectio/1/a.aspx?absid=7".to_string()));
    assert_eq!(blocks[0].label, Some(" 2a <i>MA</i> ".to_string()));
    assert_eq!(blocks[1], block("", None, None));
    assert_eq!(lesson_blocks("<a class=\"s2skemabrik\">outside a container</a>"), Ok(Vec::new()));
}

#[test]
fn a_timetable_without_detail_pages_ends_at_once() {
    let body = timetable(
        "<a class=\"s2skemabrik\" data-tooltip=\"Lokale: 1\"></a>\
         <a class=\"s2skemabrik\" data-tooltip=\"Lokale: 2\"></a>",
    );
    let scrape = ScheduleScrape::start(ok(&body));
    assert_eq!(scrape.next_request(), None);
    let entries = scrape.finish().unwrap();
    assert_eq!(entries.len(), 2);
    assert_eq!(entries[0].room, "1");
    assert_eq!(entries[1].room, "2");
    assert_eq!(entries[0].homework, "");
}

#[test]
fn detail_pages_are_asked_for_one_by_one() {
    let body = timetable(
        "<a class=\"s2skemabrik\" data-tooltip=\"Lokale: 1\"></a>\
         <a class=\"s2skemabrik\" href=\"/d/2\" data-tooltip=\"Lokale: 2\"></a>\
         <a class=\"s2skemabrik\" data-tooltip=\"Lokale: 3\"></a>\
         <a class=\"s2skemabrik\" href=\"/d/4\" data-tooltip=\"Lokale: 4\"></a>\
         <a class=\"s2skemabrik\" href=\"/d/5\" data-tooltip=\"Lokale: 5\"></a>",
    );
    let mut scrape = ScheduleScrape::start(ok(&body));
    assert_eq!(scrape.next_request(), Some("https://www.lectio.dk/d/2".to_string()));
    scrape.supply(ok(DETAIL));
    assert_eq!(scrape.next_request(), Some("https://www.lectio.dk/d/4".to_string()));
    scrape.supply(Ok(PageResponse { status: 404, body: DETAIL.to_string() }));
    assert_eq!(scrape.next_request(), Some("https://www.lectio.dk/d/5".to_string()));
    scrape.supply(ok("<html></html>"));
    assert_eq!(scrape.next_request(), None);
    let entries = get_schedule(scrape).unwrap();
    let rooms: Vec<String> = entries.iter().map(|e| e.room.clone()).collect();
    assert_eq!(rooms, vec!["1", "2", "3", "4", "5"]);
    let homework: Vec<String> = entries.iter().map(|e| e.homework.clone()).collect();
    assert_eq!(
        homework,
        vec!["", "Læs side 10 Opgave 3", "", "", "No detailed homework provided"]
    );
    let days: Vec<String> = entries.iter().map(|e| e.day.clone()).collect();
    assert_eq!(days, vec!["Day not found", "ti", "Day not found", "Day not found", "Day not found"]);
}

#[test]
fn a_detail_fetch_that_did_not_complete_ends_the_scrape() {
    let body = timetable(
        "<a class=\"s2skemabrik\" href=\"/d/1\" data-tooltip=\"Lokale: 1\"></a>\
         <a class=\"s2skemabrik\" href=\"/d/2\" data-tooltip=\"Lokale: 2\"></a>",
    );
    let mut scrape = ScheduleScrape::start(ok(&body));
    assert!(scrape.next_request().is_some());
    scrape.supply(Err(ScrapeError::Transport("connection reset".to_string())));
    assert_eq!(scrape.next_request(), None);
    assert_eq!(get_schedule(scrape).err(), Some("Error: connection reset".to_string()));
}

#[test]
fn a_failed_fetch_of_the_timetable_ends_the_scrape() {
    let scrape = ScheduleScrape::start(Err(ScrapeError::SessionMissing));
    assert_eq!(scrape.next_request(), None);
    assert_eq!(scrape.finish().err(), Some(ScrapeError::SessionMissing));
    let scrape = ScheduleScrape::start(Ok(PageResponse { status: 500, body: timetable("") }));
    assert_eq!(scrape.next_request(), None);
    assert_eq!(scrape.finish().err(), Some(ScrapeError::Status(500)));
    let scrape = ScheduleScrape::start(ok(""));
    assert_eq!(scrape.finish(), Ok(Vec::new()));
}
