//! The timetable: lesson blocks, the rules that take their tooltips apart, and the
//! detail pages that complete them.
use vstd::prelude::*;
use crate::error::{fits, is_success, page_fits, unreadable, PageResponse, ScrapeError};
use crate::html::{
    attr_of, document_matches, element_attr, element_inner_html, element_text, first_match,
    first_match_within, inner_html_of, parse_document, parsed_document, select_all, select_within,
    text_of, TextMode,
};
use crate::pattern::{captured_group, pattern_group};
use crate::text::{trim, trimmed};

verus! {

/// Selects the lesson blocks of the timetable page.
pub const BLOCK_SELECTOR: &'static str = "div.s2skemabrikcontainer a.s2skemabrik";

/// Selects, inside a lesson block, the element that holds the subject label.
pub const LABEL_SELECTOR: &'static str = "span[data-lectiocontextcard]";

/// Selects the homework section of a lesson's detail page.
pub const HOMEWORK_SELECTOR: &'static str = "div#s_m_Content_Content_tocAndToolbar_inlineHomeworkDiv";

/// Selects the element of a lesson's detail page that starts with the weekday.
pub const DAY_SELECTOR: &'static str = "div.s2skemabrikcontent";

/// Finds the keyword of a lesson that was changed or cancelled.
pub const STATUS_PATTERN: &'static str = "(Ændret!|Aflyst!)";

/// The keyword of a cancelled lesson.
pub const CANCELLED_KEYWORD: &'static str = "Aflyst!";

/// Finds the time range; its two groups are the start and the end.
pub const TIME_PATTERN: &'static str = r"(\d{2}:\d{2}) til (\d{2}:\d{2})";

/// Finds the room or rooms: the rest of the line after the label.
pub const ROOM_PATTERN: &'static str = r"Lokale(?:r)?: ([^\n]+)";

/// Finds the teacher: the rest of the line after the label.
pub const TEACHER_PATTERN: &'static str = r"Lærer: ([^\n]+)";

/// Finds the description: what follows the label, up to the note or the end.
pub const DESCRIPTION_PATTERN: &'static str = r"Øvrigt indhold:(.+?)(?:Note:|$)";

/// Finds the resource: the rest of the line after the label.
pub const RESOURCE_PATTERN: &'static str = r"Resource: (.+)";

/// Finds the note: the rest of the line after the label.
pub const NOTE_PATTERN: &'static str = r"Note:(.+)";

/// Finds the weekday that a text starts with, in its two-letter short form.
pub const DAY_PATTERN: &'static str = r"^\s*(ma|ti|on|to|fr)";

/// The time of a lesson whose tooltip states none.
pub const TIME_FALLBACK: &'static str = "Time not found";

/// The room of a lesson whose tooltip states none.
pub const ROOM_FALLBACK: &'static str = "Room not found";

/// The teacher of a lesson whose tooltip states none.
pub const TEACHER_FALLBACK: &'static str = "Teacher not found";

/// The weekday of a lesson for which none is found.
pub const DAY_FALLBACK: &'static str = "Day not found";

/// The homework of a lesson whose detail page has no homework section.
pub const HOMEWORK_FALLBACK: &'static str = "No detailed homework provided";

/// The address that detail links are relative to.
pub const SITE: &'static str = "https://www.lectio.dk";

/// Whether a lesson takes place as planned.
#[derive(Clone, Copy, Debug, PartialEq, Eq, Structural)]
pub enum LessonStatus {
    Normal,
    Changed,
    Cancelled,
}

impl LessonStatus {
    /// The word for the status.
    pub open spec fn label_text(self) -> Seq<char> {
        match self {
            LessonStatus::Normal => "normal"@,
            LessonStatus::Changed => "changed"@,
            LessonStatus::Cancelled => "cancelled"@,
        }
    }

    /// The word for the status: "normal", "changed" or "cancelled".
    pub fn label(&self) -> (r: String)
        ensures
            r@ == self.label_text(),
    {
        match self {
            LessonStatus::Normal => String::from_str("normal"),
            LessonStatus::Changed => String::from_str("changed"),
            LessonStatus::Cancelled => String::from_str("cancelled"),
        }
    }
}

/// One lesson of the timetable.
#[derive(Clone, Debug, PartialEq, Eq)]
pub struct ScheduleEntry {
    pub status: LessonStatus,
    pub class_name: String,
    pub teacher: String,
    pub room: String,
    pub description: String,
    pub time: String,
    pub day: String,
    pub homework: String,
    pub resources: String,
    pub notes: String,
}

/// What a [`ScheduleEntry`] holds.
pub ghost struct ScheduleEntryView {
    pub status: LessonStatus,
    pub class_name: Seq<char>,
    pub teacher: Seq<char>,
    pub room: Seq<char>,
    pub description: Seq<char>,
    pub time: Seq<char>,
    pub day: Seq<char>,
    pub homework: Seq<char>,
    pub resources: Seq<char>,
    pub notes: Seq<char>,
}

impl View for ScheduleEntry {
    type V = ScheduleEntryView;

    open spec fn view(&self) -> ScheduleEntryView {
        ScheduleEntryView {
            status: self.status,
            class_name: self.class_name@,
            teacher: self.teacher@,
            room: self.room@,
            description: self.description@,
            time: self.time@,
            day: self.day@,
            homework: self.homework@,
            resources: self.resources@,
            notes: self.notes@,
        }
    }
}

/// What the timetable page shows of one lesson.
#[derive(Clone, Debug, PartialEq, Eq)]
pub struct LessonBlock {
    /// The tooltip text; empty where the block has none.
    pub tooltip: String,
    /// Where the lesson's detail page is, relative to the site.
    pub detail_link: Option<String>,
    /// The markup of the subject label.
    pub label: Option<String>,
}

/// What a [`LessonBlock`] holds.
pub ghost struct LessonBlockView {
    pub tooltip: Seq<char>,
    pub detail_link: Option<Seq<char>>,
    pub label: Option<Seq<char>>,
}

impl View for LessonBlock {
    type V = LessonBlockView;

    open spec fn view(&self) -> LessonBlockView {
        LessonBlockView {
            tooltip: self.tooltip@,
            detail_link: self.detail_link.deep_view(),
            label: self.label.deep_view(),
        }
    }
}

/// What a lesson's detail page adds.
#[derive(Clone, Debug, PartialEq, Eq)]
pub struct LessonDetail {
    /// The text of the homework section, where the page has one.
    pub homework: Option<String>,
    /// The markup of the element that starts with the weekday, where the page has one.
    pub day_markup: Option<String>,
}

/// What a [`LessonDetail`] holds.
pub ghost struct LessonDetailView {
    pub homework: Option<Seq<char>>,
    pub day_markup: Option<Seq<char>>,
}

impl View for LessonDetail {
    type V = LessonDetailView;

    open spec fn view(&self) -> LessonDetailView {
        LessonDetailView {
            homework: self.homework.deep_view(),
            day_markup: self.day_markup.deep_view(),
        }
    }
}

/// What a rule makes of the text that its pattern captured: the text itself, trimmed
/// where the rule says so, or the rule's fallback where nothing was captured.
pub open spec fn field_value(found: Option<Seq<char>>, trimming: bool, fallback: Seq<char>) -> Seq<
    char,
> {
    match found {
        Some(text) => if trimming {
            trimmed(text)
        } else {
            text
        },
        None => fallback,
    }
}

/// What a rule gives for `blob`. The rule is applied to the whole blob, whatever the
/// other rules take from it.
pub open spec fn rule_value(
    pattern: Seq<char>,
    trimming: bool,
    fallback: Seq<char>,
    blob: Seq<char>,
) -> Seq<char> {
    field_value(pattern_group(pattern, blob, 1), trimming, fallback)
}

/// The status that the captured keyword stands for.
pub open spec fn status_value(found: Option<Seq<char>>) -> LessonStatus {
    match found {
        None => LessonStatus::Normal,
        Some(keyword) => if keyword == CANCELLED_KEYWORD@ {
            LessonStatus::Cancelled
        } else {
            LessonStatus::Changed
        },
    }
}

/// The time range made of the two captured clock times.
pub open spec fn time_value(from: Option<Seq<char>>, to: Option<Seq<char>>) -> Seq<char> {
    match (from, to) {
        (Some(from), Some(to)) => from + " - "@ + to,
        _ => TIME_FALLBACK@,
    }
}

/// The subject label: the trimmed markup, or nothing where the block has no label.
pub open spec fn label_value(label: Option<Seq<char>>) -> Seq<char> {
    match label {
        Some(markup) => trimmed(markup),
        None => Seq::empty(),
    }
}

/// The entry that a lesson block gives by itself, before its detail page is read.
pub open spec fn entry_of(block: LessonBlockView) -> ScheduleEntryView {
    let blob = block.tooltip;
    ScheduleEntryView {
        status: status_value(pattern_group(STATUS_PATTERN@, blob, 0)),
        class_name: label_value(block.label),
        teacher: rule_value(TEACHER_PATTERN@, false, TEACHER_FALLBACK@, blob),
        room: rule_value(ROOM_PATTERN@, false, ROOM_FALLBACK@, blob),
        description: rule_value(DESCRIPTION_PATTERN@, true, Seq::empty(), blob),
        time: time_value(
            pattern_group(TIME_PATTERN@, blob, 1),
            pattern_group(TIME_PATTERN@, blob, 2),
        ),
        day: rule_value(DAY_PATTERN@, false, DAY_FALLBACK@, blob),
        homework: Seq::empty(),
        resources: rule_value(RESOURCE_PATTERN@, true, Seq::empty(), blob),
        notes: rule_value(NOTE_PATTERN@, true, Seq::empty(), blob),
    }
}

/// The entry with what the detail page adds: the homework text, or a notice that there
/// is none, and the weekday read off the page's markup where the page has that element.
pub open spec fn with_detail(entry: ScheduleEntryView, detail: LessonDetailView) -> ScheduleEntryView {
    ScheduleEntryView {
        homework: match detail.homework {
            Some(text) => text,
            None => HOMEWORK_FALLBACK@,
        },
        day: match detail.day_markup {
            Some(markup) => rule_value(DAY_PATTERN@, false, DAY_FALLBACK@, markup),
            None => entry.day,
        },
        ..entry
    }
}

/// What a detail page's text holds.
pub open spec fn detail_of(body: Seq<char>) -> LessonDetailView {
    let doc = parsed_document(body);
    LessonDetailView {
        homework: match first_match(doc, HOMEWORK_SELECTOR@) {
            Some(section) => Some(element_text(section, TextMode::Loose)),
            None => None,
        },
        day_markup: match first_match(doc, DAY_SELECTOR@) {
            Some(el) => Some(element_inner_html(el)),
            None => None,
        },
    }
}

/// The entry after the fetch of its detail page: completed where the fetch succeeded,
/// unchanged where the server answered with another status.
pub open spec fn completed(entry: ScheduleEntryView, status: u16, body: Seq<char>) -> ScheduleEntryView {
    if is_success(status) {
        with_detail(entry, detail_of(body))
    } else {
        entry
    }
}

/// A detail page changes the homework and the weekday of an entry, and nothing else.
pub proof fn lemma_detail_keeps_the_rest(entry: ScheduleEntryView, status: u16, body: Seq<char>)
    ensures
        completed(entry, status, body) == (ScheduleEntryView {
            homework: completed(entry, status, body).homework,
            day: completed(entry, status, body).day,
            ..entry
        }),
        !is_success(status) ==> completed(entry, status, body) == entry,
{
}

/// Whether none of the rules finds anything in `blob`.
pub open spec fn nothing_matches(blob: Seq<char>) -> bool {
    &&& pattern_group(STATUS_PATTERN@, blob, 0) is None
    &&& pattern_group(TEACHER_PATTERN@, blob, 1) is None
    &&& pattern_group(ROOM_PATTERN@, blob, 1) is None
    &&& pattern_group(DESCRIPTION_PATTERN@, blob, 1) is None
    &&& pattern_group(TIME_PATTERN@, blob, 1) is None
    &&& pattern_group(TIME_PATTERN@, blob, 2) is None
    &&& pattern_group(DAY_PATTERN@, blob, 1) is None
    &&& pattern_group(RESOURCE_PATTERN@, blob, 1) is None
    &&& pattern_group(NOTE_PATTERN@, blob, 1) is None
}

/// The entry made of the fallbacks alone, with the subject label `class_name`.
pub open spec fn fallback_entry(class_name: Seq<char>) -> ScheduleEntryView {
    ScheduleEntryView {
        status: LessonStatus::Normal,
        class_name,
        teacher: TEACHER_FALLBACK@,
        room: ROOM_FALLBACK@,
        description: Seq::empty(),
        time: TIME_FALLBACK@,
        day: DAY_FALLBACK@,
        homework: Seq::empty(),
        resources: Seq::empty(),
        notes: Seq::empty(),
    }
}

/// A blob in which none of the rules finds anything gives an entry made of the
/// fallbacks: no field is left without a value.
pub proof fn lemma_unmatched_blob_gives_fallbacks(block: LessonBlockView)
    ensures
        nothing_matches(block.tooltip) ==> entry_of(block) == fallback_entry(
            label_value(block.label),
        ),
{
}

/// What a rule makes of the text that its pattern captured.
pub fn field_from(found: Option<String>, trimming: bool, fallback: &str) -> (r: String)
    ensures
        r@ == field_value(found.deep_view(), trimming, fallback@),
{
    match found {
        Some(text) => if trimming {
            trim(text.as_str())
        } else {
            text
        },
        None => String::from_str(fallback),
    }
}

/// Applies one rule to a blob.
pub fn apply_rule(pattern: &str, trimming: bool, fallback: &str, blob: &str) -> (r: String)
    ensures
        r@ == rule_value(pattern@, trimming, fallback@, blob@),
{
    field_from(captured_group(pattern, blob, 1), trimming, fallback)
}

/// The status that the captured keyword stands for.
pub fn status_from(found: Option<String>) -> (r: LessonStatus)
    ensures
        r == status_value(found.deep_view()),
{
    match found {
        None => LessonStatus::Normal,
        Some(keyword) => {
            let cancelled = String::from_str(CANCELLED_KEYWORD);
            if keyword == cancelled {
                LessonStatus::Cancelled
            } else {
                LessonStatus::Changed
            }
        },
    }
}

/// The time range made of the two captured clock times.
pub fn time_from(from: Option<String>, to: Option<String>) -> (r: String)
    ensures
        r@ == time_value(from.deep_view(), to.deep_view()),
{
    match (from, to) {
        (Some(from), Some(to)) => {
            let mut r = from;
            r.append(" - ");
            r.append(to.as_str());
            r
        },
        _ => String::from_str(TIME_FALLBACK),
    }
}

/// Takes a lesson block's tooltip apart, rule by rule.
pub fn entry_from_block(block: &LessonBlock) -> (r: ScheduleEntry)
    ensures
        r@ == entry_of(block@),
{
    let blob = block.tooltip.as_str();
    proof {
        reveal_strlit("");
        assert(""@ =~= Seq::<char>::empty());
    }
    let class_name = match &block.label {
        Some(markup) => trim(markup.as_str()),
        None => String::new(),
    };
    ScheduleEntry {
        status: status_from(captured_group(STATUS_PATTERN, blob, 0)),
        class_name,
        teacher: apply_rule(TEACHER_PATTERN, false, TEACHER_FALLBACK, blob),
        room: apply_rule(ROOM_PATTERN, false, ROOM_FALLBACK, blob),
        description: apply_rule(DESCRIPTION_PATTERN, true, "", blob),
        time: time_from(
            captured_group(TIME_PATTERN, blob, 1),
            captured_group(TIME_PATTERN, blob, 2),
        ),
        day: apply_rule(DAY_PATTERN, false, DAY_FALLBACK, blob),
        homework: String::new(),
        resources: apply_rule(RESOURCE_PATTERN, true, "", blob),
        notes: apply_rule(NOTE_PATTERN, true, "", blob),
    }
}

/// Adds to an entry what the lesson's detail page holds.
pub fn enrich(entry: ScheduleEntry, detail: &LessonDetail) -> (r: ScheduleEntry)
    ensures
        r@ == with_detail(entry@, detail@),
{
    let homework = match &detail.homework {
        Some(text) => text.clone(),
        None => String::from_str(HOMEWORK_FALLBACK),
    };
    let day = match &detail.day_markup {
        Some(markup) => apply_rule(DAY_PATTERN, false, DAY_FALLBACK, markup.as_str()),
        None => entry.day,
    };
    ScheduleEntry {
        status: entry.status,
        class_name: entry.class_name,
        teacher: entry.teacher,
        room: entry.room,
        description: entry.description,
        time: entry.time,
        day,
        homework,
        resources: entry.resources,
        notes: entry.notes,
    }
}

/// Reads what a lesson's detail page holds. A page that is too long to be parsed is
/// turned down.
pub fn read_detail(body: &str) -> (r: Result<LessonDetail, ScrapeError>)
    ensures
        r is Ok <==> page_fits(body@),
        r is Ok ==> r->Ok_0@ == detail_of(body@),
        r is Err ==> r->Err_0 == ScrapeError::PageTooLarge,
{
    if !fits(body) {
        return Err(ScrapeError::PageTooLarge);
    }
    let document = parse_document(body);
    let sections = select_all(&document, HOMEWORK_SELECTOR);
    let homework = if sections.len() > 0 {
        Some(text_of(&sections[0], TextMode::Loose))
    } else {
        None
    };
    let starts = select_all(&document, DAY_SELECTOR);
    let day_markup = if starts.len() > 0 {
        Some(inner_html_of(&starts[0]))
    } else {
        None
    };
    Ok(LessonDetail { homework, day_markup })
}

/// Whether the answer to the fetch of a detail page is one that cannot be made use of:
/// a page that was served, but is too long to be parsed.
pub open spec fn detail_too_large(status: u16, body: Seq<char>) -> bool {
    is_success(status) && !page_fits(body)
}

/// Completes an entry from the answer to the fetch of its detail page. An answer with
/// a status outside 200 to 299 leaves the entry as it is. A page that was served but is
/// too long to be parsed is an error.
pub fn complete(entry: ScheduleEntry, response: &PageResponse) -> (r: Result<
    ScheduleEntry,
    ScrapeError,
>)
    ensures
        r is Ok <==> !detail_too_large(response.status, response.body@),
        r is Ok ==> r->Ok_0@ == completed(entry@, response.status, response.body@),
        r is Err ==> r->Err_0 == ScrapeError::PageTooLarge,
{
    if response.succeeded() {
        match read_detail(response.body.as_str()) {
            Ok(detail) => Ok(enrich(entry, &detail)),
            Err(error) => Err(error),
        }
    } else {
        Ok(entry)
    }
}

/// The address of a detail page.
pub fn detail_url(link: &str) -> (r: String)
    ensures
        r@ == SITE@ + link@,
{
    let mut r = String::from_str(SITE);
    r.append(link);
    r
}

/// What the timetable page shows of the lesson block `el`.
pub open spec fn block_of(el: scraper::ElementRef<'_>) -> LessonBlockView {
    LessonBlockView {
        tooltip: match element_attr(el, "data-tooltip"@) {
            Some(text) => text,
            None => Seq::empty(),
        },
        detail_link: element_attr(el, "href"@),
        label: match first_match_within(el, LABEL_SELECTOR@) {
            Some(span) => Some(element_inner_html(span)),
            None => None,
        },
    }
}

/// The lesson blocks of the timetable page `body`, in page order.
pub open spec fn lesson_blocks_of(body: Seq<char>) -> Seq<LessonBlockView> {
    let found = document_matches(parsed_document(body), BLOCK_SELECTOR@);
    Seq::new(found.len(), |i: int| block_of(found[i]))
}

/// The views of the blocks in `blocks`.
pub open spec fn block_views(blocks: Seq<LessonBlock>) -> Seq<LessonBlockView> {
    Seq::new(blocks.len(), |i: int| blocks[i]@)
}

/// The views of the entries in `entries`.
pub open spec fn entry_views(entries: Seq<ScheduleEntry>) -> Seq<ScheduleEntryView> {
    Seq::new(entries.len(), |i: int| entries[i]@)
}

fn block_from(el: &scraper::ElementRef<'_>) -> (r: LessonBlock)
    ensures
        r@ == block_of(*el),
{
    let tooltip = match attr_of(el, "data-tooltip") {
        Some(text) => text,
        None => String::new(),
    };
    let detail_link = attr_of(el, "href");
    let spans = select_within(el, LABEL_SELECTOR);
    let label = if spans.len() > 0 {
        Some(inner_html_of(&spans[0]))
    } else {
        None
    };
    LessonBlock { tooltip, detail_link, label }
}

/// Finds the lesson blocks of the timetable page. A page that is too long to be parsed
/// is turned down.
pub fn lesson_blocks(body: &str) -> (r: Result<Vec<LessonBlock>, ScrapeError>)
    ensures
        r is Ok <==> page_fits(body@),
        r is Ok ==> block_views(r->Ok_0@) == lesson_blocks_of(body@),
        r is Err ==> r->Err_0 == ScrapeError::PageTooLarge,
{
    if !fits(body) {
        return Err(ScrapeError::PageTooLarge);
    }
    let document = parse_document(body);
    let found = select_all(&document, BLOCK_SELECTOR);
    let mut r: Vec<LessonBlock> = Vec::new();
    let mut i: usize = 0;
    while i < found.len()
        invariant
            i <= found.len(),
            r.len() == i,
            forall|j: int| 0 <= j < i ==> (#[trigger] r@[j])@ == block_of(found@[j]),
        decreases found.len() - i,
    {
        r.push(block_from(&found[i]));
        i += 1;
    }
    assert(block_views(r@) =~= lesson_blocks_of(body@));
    Ok(r)
}

/// The entries of the blocks from `from` up to, and without, the next block that links
/// to a detail page: the blocks that are complete by themselves.
pub open spec fn plain_run(blocks: Seq<LessonBlockView>, from: int) -> Seq<ScheduleEntryView>
    decreases blocks.len() - from,
{
    if from < 0 || from >= blocks.len() || blocks[from].detail_link is Some {
        Seq::empty()
    } else {
        seq![entry_of(blocks[from])] + plain_run(blocks, from + 1)
    }
}

/// After a run of complete blocks comes a block with a detail page, or the end.
pub proof fn lemma_plain_run_stops(blocks: Seq<LessonBlockView>, from: int)
    requires
        0 <= from <= blocks.len(),
    ensures
        from + plain_run(blocks, from).len() <= blocks.len(),
        from + plain_run(blocks, from).len() < blocks.len() ==> blocks[from + plain_run(
            blocks,
            from,
        ).len()].detail_link is Some,
    decreases blocks.len() - from,
{
    if from < blocks.len() && blocks[from].detail_link is None {
        lemma_plain_run_stops(blocks, from + 1);
    }
}

/// Each element of a run is the entry of its block, and that block has no detail page.
pub proof fn lemma_plain_run_entries(blocks: Seq<LessonBlockView>, from: int)
    requires
        0 <= from <= blocks.len(),
    ensures
        forall|j: int|
            0 <= j < plain_run(blocks, from).len() ==> {
                &&& blocks[from + j].detail_link is None
                &&& #[trigger] plain_run(blocks, from)[j] == entry_of(blocks[from + j])
            },
    decreases blocks.len() - from,
{
    lemma_plain_run_stops(blocks, from);
    if from < blocks.len() && blocks[from].detail_link is None {
        lemma_plain_run_entries(blocks, from + 1);
        lemma_plain_run_stops(blocks, from + 1);
        let run = plain_run(blocks, from);
        let rest = plain_run(blocks, from + 1);
        assert forall|j: int| 0 <= j < run.len() implies {
            &&& blocks[from + j].detail_link is None
            &&& #[trigger] run[j] == entry_of(blocks[from + j])
        } by {
            if j > 0 {
                assert(run[j] == rest[j - 1]);
            }
        }
    }
}

/// Whether `entry` is `base` but for its homework and its weekday: the two fields that
/// a detail page fills in.
pub open spec fn same_lesson(entry: ScheduleEntryView, base: ScheduleEntryView) -> bool {
    entry == (ScheduleEntryView { homework: entry.homework, day: entry.day, ..base })
}

/// Whether `entries` are the entries of the first of `blocks`, one for each block and in
/// the same order: taken from the block's tooltip, and left at that where the block has
/// no detail page.
pub open spec fn entries_follow_blocks(
    entries: Seq<ScheduleEntryView>,
    blocks: Seq<LessonBlockView>,
) -> bool {
    &&& entries.len() <= blocks.len()
    &&& forall|i: int|
        0 <= i < entries.len() ==> {
            &&& same_lesson(#[trigger] entries[i], entry_of(blocks[i]))
            &&& blocks[i].detail_link is None ==> entries[i] == entry_of(blocks[i])
        }
}

/// A timetable scrape in progress. It asks for one detail page at a time, and ends
/// with the list of lessons or with the first failure.
pub struct ScheduleScrape {
    blocks: Vec<LessonBlock>,
    entries: Vec<ScheduleEntry>,
    failure: Option<ScrapeError>,
}

impl ScheduleScrape {
    /// The lesson blocks that the timetable page holds.
    pub closed spec fn blocks(self) -> Seq<LessonBlockView> {
        block_views(self.blocks@)
    }

    /// The entries that are finished, in page order.
    pub closed spec fn entries(self) -> Seq<ScheduleEntryView> {
        entry_views(self.entries@)
    }

    /// Why the scrape has failed, where it has.
    pub closed spec fn failure(self) -> Option<ScrapeError> {
        self.failure
    }

    /// The entries are those of the first blocks; the next block, where there is one
    /// and nothing has failed, waits for its detail page.
    pub open spec fn wf(self) -> bool {
        &&& entries_follow_blocks(self.entries(), self.blocks())
        &&& self.failure() is None && self.entries().len() < self.blocks().len()
            ==> self.blocks()[self.entries().len() as int].detail_link is Some
    }

    /// The position of the block whose detail page is wanted next.
    pub open spec fn awaited(self) -> Option<int> {
        if self.failure() is None && self.entries().len() < self.blocks().len() {
            Some(self.entries().len() as int)
        } else {
            None
        }
    }

    /// The address to fetch next.
    pub open spec fn request(self) -> Option<Seq<char>> {
        match self.awaited() {
            Some(at) => Some(SITE@ + self.blocks()[at].detail_link->0),
            None => None,
        }
    }

    /// Takes up the blocks that need no detail page.
    fn settle(&mut self)
        requires
            entries_follow_blocks(old(self).entries(), old(self).blocks()),
        ensures
            final(self).blocks() == old(self).blocks(),
            final(self).failure() == old(self).failure(),
            final(self).entries() == old(self).entries() + plain_run(
                old(self).blocks(),
                old(self).entries().len() as int,
            ),
            final(self).entries().len() <= final(self).blocks().len(),
            final(self).wf(),
    {
        let ghost start = self.entries@.len() as int;
        let ghost blocks = self.blocks();
        let ghost before = self.entries();
        proof {
            lemma_plain_run_stops(blocks, start);
        }
        while self.entries.len() < self.blocks.len() && self.blocks[self.entries.len()].detail_link.is_none()
            invariant
                self.blocks() == blocks,
                self.failure == old(self).failure,
                start <= self.entries@.len() <= self.blocks@.len(),
                blocks.len() == self.blocks@.len(),
                self.entries() + plain_run(blocks, self.entries@.len() as int) == before
                    + plain_run(blocks, start),
            decreases self.blocks@.len() - self.entries@.len(),
        {
            let at: usize = self.entries.len();
            let ghost done = self.entries();
            let entry = entry_from_block(&self.blocks[at]);
            let ghost added = entry@;
            self.entries.push(entry);
            proof {
                assert(blocks[at as int] == self.blocks@[at as int]@);
                assert(self.entries() =~= done.push(added));
                assert(plain_run(blocks, at as int) == seq![added] + plain_run(blocks, at + 1));
                assert(done.push(added) + plain_run(blocks, at + 1) =~= done + (seq![added]
                    + plain_run(blocks, at + 1)));
            }
        }
        proof {
            let at = self.entries@.len() as int;
            if at < blocks.len() {
                assert(blocks[at] == self.blocks@[at]@);
            }
            assert(plain_run(blocks, at) =~= Seq::empty());
            assert(self.entries() + plain_run(blocks, at) =~= self.entries());
            lemma_plain_run_entries(blocks, start);
            let run = plain_run(blocks, start);
            assert forall|i: int| 0 <= i < self.entries().len() implies {
                &&& same_lesson(#[trigger] self.entries()[i], entry_of(blocks[i]))
                &&& blocks[i].detail_link is None ==> self.entries()[i] == entry_of(blocks[i])
            } by {
                if i < start {
                    assert(self.entries()[i] == before[i]);
                } else {
                    assert(self.entries()[i] == run[i - start]);
                }
            }
        }
    }

    /// Starts a scrape from the answer to the fetch of the timetable page. A fetch that
    /// did not complete, an answer with a status outside 200 to 299 and a page that is
    /// too long to be parsed each end the scrape at once.
    pub fn start(fetched: Result<PageResponse, ScrapeError>) -> (s: ScheduleScrape)
        ensures
            s.wf(),
            match fetched {
                Err(error) => s.failure() == Some(error) && s.blocks().len() == 0,
                Ok(response) => match unreadable(response.status, response.body@) {
                    Some(error) => s.failure() == Some(error) && s.blocks().len() == 0,
                    None => {
                        &&& s.failure() is None
                        &&& s.blocks() == lesson_blocks_of(response.body@)
                        &&& s.entries() == plain_run(s.blocks(), 0)
                    },
                },
            },
    {
        let outcome = match fetched {
            Err(error) => Err(error),
            Ok(response) => match response.check() {
                Err(error) => Err(error),
                Ok(_) => lesson_blocks(response.body.as_str()),
            },
        };
        match outcome {
            Err(error) => ScheduleScrape {
                blocks: Vec::new(),
                entries: Vec::new(),
                failure: Some(error),
            },
            Ok(blocks) => {
                let mut s = ScheduleScrape { blocks, entries: Vec::new(), failure: None };
                assert(s.entries() =~= Seq::empty());
                assert(entries_follow_blocks(s.entries(), s.blocks()));
                s.settle();
                assert(s.entries() =~= plain_run(s.blocks(), 0));
                s
            },
        }
    }

    /// The address of the detail page to fetch next; `None` once the scrape has ended.
    pub fn next_request(&self) -> (r: Option<String>)
        requires
            self.wf(),
        ensures
            r.deep_view() == self.request(),
    {
        if self.failure.is_none() && self.entries.len() < self.blocks.len() {
            let at: usize = self.entries.len();
            assert(self.blocks()[at as int] == self.blocks@[at as int]@);
            match &self.blocks[at].detail_link {
                Some(link) => Some(detail_url(link.as_str())),
                None => None,
            }
        } else {
            None
        }
    }

    /// Takes the answer to the fetch that [`ScheduleScrape::next_request`] asked for.
    /// A fetch that did not complete ends the scrape with that failure, and so does a
    /// page that was served but is too long to be parsed. Any other answer of the server
    /// finishes the waiting block's entry, and with it the blocks after it that need no
    /// detail page.
    pub fn supply(&mut self, fetched: Result<PageResponse, ScrapeError>)
        requires
            old(self).wf(),
            old(self).awaited() is Some,
        ensures
            final(self).wf(),
            final(self).blocks() == old(self).blocks(),
            match fetched {
                Err(error) => {
                    &&& final(self).failure() == Some(error)
                    &&& final(self).entries() == old(self).entries()
                },
                Ok(response) => if detail_too_large(response.status, response.body@) {
                    &&& final(self).failure() == Some(ScrapeError::PageTooLarge)
                    &&& final(self).entries() == old(self).entries()
                } else {
                    &&& final(self).failure() is None
                    &&& final(self).entries() == old(self).entries().push(
                        completed(
                            entry_of(old(self).blocks()[old(self).awaited()->0]),
                            response.status,
                            response.body@,
                        ),
                    ) + plain_run(old(self).blocks(), old(self).awaited()->0 + 1)
                },
            },
    {
        let at: usize = self.entries.len();
        assert(self.blocks()[at as int] == self.blocks@[at as int]@);
        let outcome = match fetched {
            Err(error) => Err(error),
            Ok(response) => complete(entry_from_block(&self.blocks[at]), &response),
        };
        match outcome {
            Err(error) => {
                self.failure = Some(error);
            },
            Ok(entry) => {
                let ghost done = self.entries();
                let ghost added = entry@;
                self.entries.push(entry);
                proof {
                    assert(self.entries() =~= done.push(added));
                    let response = fetched->Ok_0;
                    lemma_detail_keeps_the_rest(
                        entry_of(self.blocks()[at as int]),
                        response.status,
                        response.body@,
                    );
                    assert forall|i: int| 0 <= i < self.entries().len() implies {
                        &&& same_lesson(#[trigger] self.entries()[i], entry_of(self.blocks()[i]))
                        &&& self.blocks()[i].detail_link is None ==> self.entries()[i] == entry_of(
                            self.blocks()[i],
                        )
                    } by {
                        if i < at {
                            assert(self.entries()[i] == done[i]);
                        }
                    }
                }
                self.settle();
            },
        }
    }

    /// Ends the scrape: the lessons in page order, or the failure that stopped it.
    pub fn finish(self) -> (r: Result<Vec<ScheduleEntry>, ScrapeError>)
        requires
            self.wf(),
            self.awaited() is None,
        ensures
            match self.failure() {
                Some(error) => r == Err::<Vec<ScheduleEntry>, ScrapeError>(error),
                None => {
                    &&& r is Ok
                    &&& entry_views(r->Ok_0@) == self.entries()
                    &&& self.entries().len() == self.blocks().len()
                },
            },
    {
        match self.failure {
            Some(error) => Err(error),
            None => Ok(self.entries),
        }
    }
}

/// Answers a request for the timetable once the scrape has ended: the lessons in page
/// order, or the text of the failure that stopped it.
pub fn get_schedule(scrape: ScheduleScrape) -> (r: Result<Vec<ScheduleEntry>, String>)
    requires
        scrape.wf(),
        scrape.awaited() is None,
    ensures
        match scrape.failure() {
            Some(error) => r is Err && r->Err_0@ == error.report_text(),
            None => r is Ok && entry_views(r->Ok_0@) == scrape.entries(),
        },
{
    match scrape.finish() {
        Ok(entries) => Ok(entries),
        Err(error) => Err(error.report()),
    }
}

} // verus!
