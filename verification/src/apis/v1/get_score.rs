//! The page of the scores of one examination: the subjects, the notes
//! below them, and what was failed.

use crate::error::FetchError;
use crate::html::{
    document_html, found_tables, rewritten_html, row_view, select_cells, selected_cells,
    table_view, tables_view, Cell, CellView,
};
use crate::http::{rewritten, APIPaths, HeaderSetting, ReplaceString};
use crate::page::{
    cell_chars, contains, holds, low_byte, narrow_u8, number_in, number_of, squeeze, squeezed,
    text_in,
};
use crate::relay::{request_is, Method, UpstreamRequest};
use crate::text::{chars_of, replace_all, replaced, string_of};
use crate::types::{AuthToken, ScoreExtraData, ScoreUnpass};
use crate::utils::{combine_path, create_auth_header};
use vstd::prelude::*;

verus! {

pub const API_PATH: &'static str = "/v1/getScoreInfo";

/// Which examination a client asks for.
#[derive(Debug)]
#[allow(non_snake_case)]
pub struct DataStruct {
    pub year: String,
    pub term: String,
    pub times: String,
    pub testID: String,
}

/// The path of the score page of an examination: the year, the term and
/// the identifier of the examination are put into the path, in this order.
pub open spec fn score_path(year: Seq<char>, term: Seq<char>, test_id: Seq<char>) -> Seq<char> {
    replaced(
        replaced(replaced(APIPaths::Score.path_text(), "$year$"@, year), "$term$"@, term),
        "$testid$"@,
        test_id,
    )
}

/// The request for the score page of an examination: it goes to the host
/// that the credential names, with the cookie that the credential holds.
pub fn score_request(credential: &AuthToken, params: &DataStruct) -> (request: UpstreamRequest)
    ensures
        request_is(
            request,
            Method::Get,
            credential.host@ + score_path(params.year@, params.term@, params.testID@),
            Some(credential.cookie@),
            None,
        ),
{
    let mut rules: Vec<ReplaceString> = Vec::new();
    rules.push(
        ReplaceString { match_string: "$year$".to_owned(), replacement: params.year.clone() },
    );
    rules.push(
        ReplaceString { match_string: "$term$".to_owned(), replacement: params.term.clone() },
    );
    rules.push(
        ReplaceString { match_string: "$testid$".to_owned(), replacement: params.testID.clone() },
    );
    proof {
        let first = replaced(APIPaths::Score.path_text(), "$year$"@, params.year@);
        let second = replaced(first, "$term$"@, params.term@);
        let third = replaced(second, "$testid$"@, params.testID@);
        assert(rules@.drop_first().drop_first().drop_first() == Seq::<ReplaceString>::empty());
        assert(rewritten(third, rules@.drop_first().drop_first().drop_first()) == third);
        assert(rewritten(second, rules@.drop_first().drop_first()) == third);
        assert(rewritten(first, rules@.drop_first()) == third);
        assert(rewritten(APIPaths::Score.path_text(), rules@) == third);
    }
    let path = APIPaths::Score.replace(rules);
    let mut headers: Vec<HeaderSetting> = Vec::new();
    headers.push(create_auth_header(credential.cookie.as_str()));
    UpstreamRequest {
        method: Method::Get,
        url: combine_path(credential.host.as_str(), path.as_str()),
        headers,
        body: None,
    }
}

/// One subject of an examination, as the page shows it. The grade point is
/// kept as the text that the page shows.
#[derive(Debug)]
pub struct Subject {
    pub name: String,
    pub score: u8,
    pub gpa: String,
    /// The score is shown in red.
    pub score_failed: bool,
    /// The grade point is marked as failed.
    pub gpa_failed: bool,
}

pub struct SubjectView {
    pub name: Seq<char>,
    pub score: u8,
    pub gpa: Seq<char>,
    pub score_failed: bool,
    pub gpa_failed: bool,
}

impl View for Subject {
    type V = SubjectView;

    open spec fn view(&self) -> SubjectView {
        SubjectView {
            name: self.name@,
            score: self.score,
            gpa: self.gpa@,
            score_failed: self.score_failed,
            gpa_failed: self.gpa_failed,
        }
    }
}

/// The subjects of a list, as contracts see them.
pub open spec fn subjects_view(list: Vec<Subject>) -> Seq<SubjectView> {
    list@.map_values(|subject: Subject| subject@)
}

/// Whether a score is shown in red: its `style` names the colour.
pub open spec fn shown_red(cell: CellView) -> bool {
    match cell.attribute {
        Some(style) => holds(style, "red"@),
        None => false,
    }
}

/// The subject of a row, from the cells of the row and from the `span`
/// elements in each cell.
///
/// A row with fewer than two cells holds no subject and is passed over. In
/// any other row the first cell names the subject, the first `span` of the
/// second cell holds the score and the first `span` of the third cell the
/// grade point: a row that lacks one of them cannot be read. The score is
/// kept as far as 8 bits hold it.
pub open spec fn subject_of(cells: Seq<CellView>, spans: Seq<Seq<CellView>>) -> Result<
    Option<SubjectView>,
    FetchError,
> {
    if cells.len() < 2 {
        Ok(None)
    } else if spans.len() < 3 || spans[1].len() == 0 || spans[2].len() == 0 {
        Err(FetchError::FetchFailed)
    } else {
        Ok(
            Some(
                SubjectView {
                    name: replaced(text_in(cells[0]), " "@, ""@),
                    score: low_byte(number_in(squeezed(text_in(spans[1][0])))),
                    gpa: squeezed(text_in(spans[2][0])),
                    score_failed: shown_red(spans[1][0]),
                    gpa_failed: spans[2][0].marked,
                },
            ),
        )
    }
}

/// Reads the subject of a row.
pub fn read_subject(cells: &Vec<Cell>, spans: &Vec<Vec<Cell>>) -> (read: Result<
    Option<Subject>,
    FetchError,
>)
    ensures
        match read {
            Ok(Some(subject)) => subject_of(row_view(*cells), table_view(*spans)) matches Ok(
                Some(value),
            ) && value == subject@,
            Ok(None) => subject_of(row_view(*cells), table_view(*spans)) matches Ok(None),
            Err(error) => subject_of(row_view(*cells), table_view(*spans)) matches Err(refusal)
                && refusal == error,
        },
{
    if cells.len() < 2 {
        return Ok(None);
    }
    if spans.len() < 3 || spans[1].len() == 0 || spans[2].len() == 0 {
        assert(spans@.len() >= 3 ==> table_view(*spans)[1] == row_view(spans@[1]));
        assert(spans@.len() >= 3 ==> table_view(*spans)[2] == row_view(spans@[2]));
        return Err(FetchError::FetchFailed);
    }
    assert(row_view(*cells)[0] == cells@[0]@);
    assert(table_view(*spans)[1] == row_view(spans@[1]));
    assert(table_view(*spans)[2] == row_view(spans@[2]));
    assert(row_view(spans@[1])[0] == spans@[1]@[0]@);
    assert(row_view(spans@[2])[0] == spans@[2]@[0]@);
    let score = &spans[1][0];
    let gpa = &spans[2][0];
    let name = replace_all(&cell_chars(&cells[0]), &chars_of(" "), &chars_of(""));
    let score_failed = match &score.attribute {
        Some(style) => contains(&chars_of(style.as_str()), &chars_of("red")),
        None => false,
    };
    Ok(
        Some(
            Subject {
                name: string_of(&name),
                score: narrow_u8(number_of(&squeeze(&cell_chars(score)))),
                gpa: string_of(&squeeze(&cell_chars(gpa))),
                score_failed,
                gpa_failed: gpa.marked,
            },
        ),
    )
}

/// The subjects of the rows from place 1 up to, not including, place
/// `upto`; nothing where a row cannot be read.
pub open spec fn subjects_upto(
    rows: Seq<Seq<CellView>>,
    spans: Seq<Seq<Seq<CellView>>>,
    upto: int,
) -> Option<Seq<SubjectView>>
    decreases upto,
{
    if upto <= 1 {
        Some(Seq::empty())
    } else {
        match (subjects_upto(rows, spans, upto - 1), subject_of(rows[upto - 1], spans[upto - 1])) {
            (Some(before), Ok(Some(subject))) => Some(before.push(subject)),
            (Some(before), Ok(None)) => Some(before),
            _ => None,
        }
    }
}

/// Where the rows up to some place give nothing, the rows up to any later
/// place give nothing.
pub proof fn lemma_subjects_fail(
    rows: Seq<Seq<CellView>>,
    spans: Seq<Seq<Seq<CellView>>>,
    upto: int,
    end: int,
)
    requires
        upto <= end,
        subjects_upto(rows, spans, upto) is None,
    ensures
        subjects_upto(rows, spans, end) is None,
    decreases end - upto,
{
    if upto < end {
        lemma_subjects_fail(rows, spans, upto, end - 1);
    }
}

/// The subjects of an examination, from the rows of the score table with
/// their cells, and from the same rows with the `span` elements in each
/// cell. The rows are looked for in the whole document the first time, so
/// one table is awaited: that of the document itself. The first row is the
/// heading; a table without it is none.
pub open spec fn subjects_of(
    cells: Option<Seq<Seq<Seq<CellView>>>>,
    spans: Option<Seq<Seq<Seq<CellView>>>>,
) -> Result<Seq<SubjectView>, FetchError> {
    match (cells, spans) {
        (Some(tables), Some(spans)) => if tables.len() != 1 || tables[0].len() == 0
            || tables[0].len() != spans.len() {
            Err(FetchError::FetchFailed)
        } else {
            match subjects_upto(tables[0], spans, spans.len() as int) {
                Some(list) => Ok(list),
                None => Err(FetchError::FetchFailed),
            }
        },
        _ => Err(FetchError::FetchFailed),
    }
}

/// Reads the subjects of an examination from the rows of the score table.
#[verifier::loop_isolation(false)]
pub fn subjects(cells: &Option<Vec<Vec<Vec<Cell>>>>, spans: &Option<Vec<Vec<Vec<Cell>>>>) -> (read:
    Result<Vec<Subject>, FetchError>)
    ensures
        match read {
            Ok(list) => subjects_of(found_tables(*cells), found_tables(*spans)) matches Ok(
                found,
            ) && found == subjects_view(list),
            Err(error) => subjects_of(found_tables(*cells), found_tables(*spans)) matches Err(
                refusal,
            ) && refusal == error,
        },
{
    let tables = match cells {
        Some(tables) => tables,
        None => return Err(FetchError::FetchFailed),
    };
    let spans = match spans {
        Some(spans) => spans,
        None => return Err(FetchError::FetchFailed),
    };
    if tables.len() != 1 {
        return Err(FetchError::FetchFailed);
    }
    let rows = &tables[0];
    assert(tables_view(*tables)[0] == table_view(*rows));
    if rows.len() == 0 || rows.len() != spans.len() {
        return Err(FetchError::FetchFailed);
    }
    let ghost row_views = table_view(*rows);
    let ghost span_views = tables_view(*spans);
    let mut list: Vec<Subject> = Vec::new();
    let mut i: usize = 1;
    assert(subjects_view(list) == Seq::<SubjectView>::empty());
    while i < rows.len()
        invariant
            1 <= i <= rows.len(),
            subjects_upto(row_views, span_views, i as int) == Some(subjects_view(list)),
        decreases rows.len() - i,
    {
        assert(row_views[i as int] == row_view(rows@[i as int]));
        assert(span_views[i as int] == table_view(spans@[i as int]));
        match read_subject(&rows[i], &spans[i]) {
            Ok(Some(subject)) => {
                let ghost before = subjects_view(list);
                list.push(subject);
                assert(subjects_view(list) == before.push(subject@));
            },
            Ok(None) => {},
            Err(error) => {
                proof {
                    lemma_subjects_fail(row_views, span_views, i + 1, rows@.len() as int);
                }
                return Err(error);
            },
        }
        i += 1;
    }
    Ok(list)
}

pub struct FailView {
    pub name: Seq<char>,
    pub kind: Seq<char>,
}

impl View for ScoreUnpass {
    type V = FailView;

    open spec fn view(&self) -> FailView {
        FailView { name: self.name@, kind: self.kind@ }
    }
}

/// The failures of a list, as contracts see them.
pub open spec fn fails_view(list: Vec<ScoreUnpass>) -> Seq<FailView> {
    list@.map_values(|fail: ScoreUnpass| fail@)
}

/// What was failed in one subject: the score first, then the grade point.
pub open spec fn fails_in(subject: SubjectView) -> Seq<FailView> {
    let score = if subject.score_failed {
        seq![FailView { name: subject.name, kind: "score"@ }]
    } else {
        Seq::empty()
    };
    let gpa = if subject.gpa_failed {
        seq![FailView { name: subject.name, kind: "gpa"@ }]
    } else {
        Seq::empty()
    };
    score + gpa
}

/// What was failed in some subjects, the first subject first.
pub open spec fn fails_of(subjects: Seq<SubjectView>) -> Seq<FailView>
    decreases subjects.len(),
{
    if subjects.len() == 0 {
        Seq::empty()
    } else {
        fails_of(subjects.drop_last()) + fails_in(subjects.last())
    }
}

/// Lists what was failed in the subjects of an examination.
pub fn unpass(subjects: &Vec<Subject>) -> (list: Vec<ScoreUnpass>)
    ensures
        fails_view(list) == fails_of(subjects_view(*subjects)),
{
    let ghost all = subjects_view(*subjects);
    let mut list: Vec<ScoreUnpass> = Vec::new();
    let mut i: usize = 0;
    assert(all.take(0) == Seq::<SubjectView>::empty());
    assert(fails_view(list) == Seq::<FailView>::empty());
    while i < subjects.len()
        invariant
            i <= subjects.len(),
            all == subjects_view(*subjects),
            fails_view(list) == fails_of(all.take(i as int)),
        decreases subjects.len() - i,
    {
        assert(all.take(i + 1).drop_last() == all.take(i as int));
        assert(all.take(i + 1).last() == subjects@[i as int]@);
        let ghost before = fails_view(list);
        if subjects[i].score_failed {
            let fail = ScoreUnpass { kind: "score".to_owned(), name: subjects[i].name.clone() };
            list.push(fail);
            assert(fails_view(list) == before.push(fail@));
        }
        let ghost between = fails_view(list);
        if subjects[i].gpa_failed {
            let fail = ScoreUnpass { kind: "gpa".to_owned(), name: subjects[i].name.clone() };
            list.push(fail);
            assert(fails_view(list) == between.push(fail@));
        }
        assert(fails_view(list) == before + fails_in(subjects@[i as int]@));
        i += 1;
    }
    assert(all.take(all.len() as int) == all);
    list
}

pub struct NoteView {
    pub kind: Seq<char>,
    pub value: Seq<char>,
}

impl View for ScoreExtraData {
    type V = NoteView;

    open spec fn view(&self) -> NoteView {
        NoteView { kind: self.kind@, value: self.value@ }
    }
}

/// The notes of a list, as contracts see them.
pub open spec fn notes_view(list: Vec<ScoreExtraData>) -> Seq<NoteView> {
    list@.map_values(|note: ScoreExtraData| note@)
}

/// The cells of some rows, one row after the other.
pub open spec fn cells_of_rows(rows: Seq<Seq<CellView>>) -> Seq<CellView>
    decreases rows.len(),
{
    if rows.len() == 0 {
        Seq::empty()
    } else {
        cells_of_rows(rows.drop_last()) + rows.last()
    }
}

/// The cells of some tables, one table after the other.
pub open spec fn cells_of_tables(tables: Seq<Seq<Seq<CellView>>>) -> Seq<CellView>
    decreases tables.len(),
{
    if tables.len() == 0 {
        Seq::empty()
    } else {
        cells_of_tables(tables.drop_last()) + cells_of_rows(tables.last())
    }
}

fn gather_rows(rows: &Vec<Vec<Cell>>, out: &mut Vec<Cell>)
    ensures
        row_view(*final(out)) == row_view(*old(out)) + cells_of_rows(table_view(*rows)),
{
    let ghost all = table_view(*rows);
    let ghost before = row_view(*out);
    let mut i: usize = 0;
    assert(all.take(0) == Seq::<Seq<CellView>>::empty());
    assert(row_view(*out) == before + cells_of_rows(all.take(0)));
    while i < rows.len()
        invariant
            i <= rows.len(),
            all == table_view(*rows),
            row_view(*out) == before + cells_of_rows(all.take(i as int)),
        decreases rows.len() - i,
    {
        assert(all.take(i + 1).drop_last() == all.take(i as int));
        assert(all.take(i + 1).last() == row_view(rows@[i as int]));
        let ghost so_far = row_view(*out);
        let mut k: usize = 0;
        assert(row_view(rows@[i as int]).take(0) == Seq::<CellView>::empty());
        while k < rows[i].len()
            invariant
                i < rows.len(),
                k <= rows@[i as int].len(),
                row_view(*out) == so_far + row_view(rows@[i as int]).take(k as int),
            decreases rows@[i as int].len() - k,
        {
            let ghost shown = row_view(*out);
            out.push(rows[i][k].clone_cell());
            assert(row_view(*out) == shown.push(rows@[i as int]@[k as int]@));
            assert(row_view(rows@[i as int]).take(k + 1) == row_view(rows@[i as int]).take(
                k as int,
            ).push(rows@[i as int]@[k as int]@));
            k += 1;
        }
        assert(row_view(rows@[i as int]).take(rows@[i as int].len() as int) == row_view(
            rows@[i as int],
        ));
        i += 1;
    }
    assert(all.take(all.len() as int) == all);
}

/// Puts the cells of some tables in one list, one table after the other.
pub fn gather_cells(tables: &Vec<Vec<Vec<Cell>>>) -> (cells: Vec<Cell>)
    ensures
        row_view(cells) == cells_of_tables(tables_view(*tables)),
{
    let ghost all = tables_view(*tables);
    let mut cells: Vec<Cell> = Vec::new();
    let mut i: usize = 0;
    assert(all.take(0) == Seq::<Seq<Seq<CellView>>>::empty());
    assert(row_view(cells) == Seq::<CellView>::empty());
    while i < tables.len()
        invariant
            i <= tables.len(),
            all == tables_view(*tables),
            row_view(cells) == cells_of_tables(all.take(i as int)),
        decreases tables.len() - i,
    {
        assert(all.take(i + 1).drop_last() == all.take(i as int));
        assert(all.take(i + 1).last() == table_view(tables@[i as int]));
        gather_rows(&tables[i], &mut cells);
        i += 1;
    }
    assert(all.take(all.len() as int) == all);
    cells
}

/// The note that the cell at place `i` holds, with the cell before it as
/// its heading: the heading without its colon, and the value without
/// spaces and line breaks.
pub open spec fn note_at(cells: Seq<CellView>, i: int) -> NoteView {
    NoteView {
        kind: replaced(text_in(cells[i - 1]), "："@, ""@),
        value: squeezed(text_in(cells[i])),
    }
}

/// The notes in the cells up to, not including, place `upto`: one for each
/// cell that is marked as a score. Nothing where the first cell of all is
/// marked, for it has no heading.
pub open spec fn notes_upto(cells: Seq<CellView>, upto: int) -> Option<Seq<NoteView>>
    decreases upto,
{
    if upto <= 0 {
        Some(Seq::empty())
    } else {
        match notes_upto(cells, upto - 1) {
            Some(before) => if cells[upto - 1].marked {
                if upto == 1 {
                    None
                } else {
                    Some(before.push(note_at(cells, upto - 1)))
                }
            } else {
                Some(before)
            },
            None => None,
        }
    }
}

/// Where the cells up to some place give nothing, the cells up to any later
/// place give nothing.
pub proof fn lemma_notes_fail(cells: Seq<CellView>, upto: int, end: int)
    requires
        upto <= end,
        notes_upto(cells, upto) is None,
    ensures
        notes_upto(cells, end) is None,
    decreases end - upto,
{
    if upto < end {
        lemma_notes_fail(cells, upto, end - 1);
    }
}

/// The notes below the scores, from the note tables of the page with their
/// rows and cells, each cell with whether it is marked as a score.
pub open spec fn notes_of(found: Option<Seq<Seq<Seq<CellView>>>>) -> Result<Seq<NoteView>, FetchError> {
    match found {
        Some(tables) => match notes_upto(
            cells_of_tables(tables),
            cells_of_tables(tables).len() as int,
        ) {
            Some(list) => Ok(list),
            None => Err(FetchError::FetchFailed),
        },
        None => Err(FetchError::FetchFailed),
    }
}

/// Reads the notes below the scores from the note tables of the page.
#[verifier::loop_isolation(false)]
pub fn notes(found: &Option<Vec<Vec<Vec<Cell>>>>) -> (read: Result<Vec<ScoreExtraData>, FetchError>)
    ensures
        match read {
            Ok(list) => notes_of(found_tables(*found)) matches Ok(held) && held == notes_view(
                list,
            ),
            Err(error) => notes_of(found_tables(*found)) matches Err(refusal) && refusal
                == error,
        },
{
    let tables = match found {
        Some(tables) => tables,
        None => return Err(FetchError::FetchFailed),
    };
    let cells = gather_cells(tables);
    let ghost all = row_view(cells);
    let mut list: Vec<ScoreExtraData> = Vec::new();
    let mut i: usize = 0;
    assert(notes_view(list) == Seq::<NoteView>::empty());
    while i < cells.len()
        invariant
            i <= cells.len(),
            notes_upto(all, i as int) == Some(notes_view(list)),
        decreases cells.len() - i,
    {
        assert(all[i as int] == cells@[i as int]@);
        if cells[i].marked {
            if i == 0 {
                proof {
                    lemma_notes_fail(all, 1, cells@.len() as int);
                }
                return Err(FetchError::FetchFailed);
            }
            assert(all[i - 1] == cells@[i - 1]@);
            let kind = replace_all(&cell_chars(&cells[i - 1]), &chars_of("："), &chars_of(""));
            let note = ScoreExtraData {
                kind: string_of(&kind),
                value: string_of(&squeeze(&cell_chars(&cells[i]))),
            };
            let ghost before = notes_view(list);
            list.push(note);
            assert(notes_view(list) == before.push(note@));
        }
        i += 1;
    }
    Ok(list)
}

/// Why the scores of an examination are not given.
#[derive(Clone, Copy, Debug, PartialEq, Eq, Structural)]
pub enum ScoreError {
    /// The portal says that the scores are not open yet.
    NotOpen,
    /// The page is not the score page that was awaited.
    Unreadable,
}

/// What is read of the score page of an examination.
#[derive(Debug)]
pub struct ScorePage {
    pub subjects: Vec<Subject>,
    pub extra: Vec<ScoreExtraData>,
    pub unpass: Vec<ScoreUnpass>,
}

/// What the reader of the score page gives, given what was selected in the
/// page.
pub open spec fn page_is(
    read: Result<ScorePage, ScoreError>,
    written: Seq<char>,
    cells: Option<Seq<Seq<Seq<CellView>>>>,
    spans: Option<Seq<Seq<Seq<CellView>>>>,
    extra: Option<Seq<Seq<Seq<CellView>>>>,
) -> bool {
    if holds(written, "尚未開放"@) {
        read matches Err(ScoreError::NotOpen)
    } else {
        match (subjects_of(cells, spans), notes_of(extra)) {
            (Ok(subjects), Ok(notes)) => {
                &&& read matches Ok(page)
                &&& subjects_view(page.subjects) == subjects
                &&& notes_view(page.extra) == notes
                &&& fails_view(page.unpass) == fails_of(subjects)
            },
            _ => read matches Err(ScoreError::Unreadable),
        }
    }
}

/// Reads the score page of an examination. A page that says "尚未開放" holds
/// no scores yet. Of any other page the subjects and the notes are read,
/// both or none.
pub fn read_page(document: &str) -> (read: Result<ScorePage, ScoreError>)
    ensures
        page_is(
            read,
            rewritten_html(document@),
            selected_cells(document@, "html"@, "table[id=Table1] tr"@, "td"@, ""@, ""@),
            selected_cells(document@, "table[id=Table1] tr"@, "td"@, "span"@, "style"@, "unpass"@),
            selected_cells(
                document@,
                "table.scoreTable-inline.padding0.spacing2.center"@,
                "tr"@,
                "td"@,
                ""@,
                "score"@,
            ),
        ),
{
    if contains(&chars_of(document_html(document).as_str()), &chars_of("尚未開放")) {
        return Err(ScoreError::NotOpen);
    }
    let cells = select_cells(document, "html", "table[id=Table1] tr", "td", "", "");
    let spans = select_cells(document, "table[id=Table1] tr", "td", "span", "style", "unpass");
    let extra = select_cells(
        document,
        "table.scoreTable-inline.padding0.spacing2.center",
        "tr",
        "td",
        "",
        "score",
    );
    let read = subjects(&cells, &spans);
    let noted = notes(&extra);
    match (read, noted) {
        (Ok(list), Ok(extra)) => {
            let unpass = unpass(&list);
            Ok(ScorePage { subjects: list, extra, unpass })
        },
        _ => Err(ScoreError::Unreadable),
    }
}

} // verus!
