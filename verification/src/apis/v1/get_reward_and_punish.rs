//! The page of rewards and punishments: the counts by kind, and the list of
//! the single records.

use crate::error::FetchError;
use crate::html::{
    found_tables, row_view, select_cells, selected_cells, table_view, tables_view, Cell, CellView,
};
use crate::page::{cell_chars, low_byte, low_word, narrow_u16, narrow_u8, number_in, number_of, text_in};
use crate::text::{chars_of, same_chars, string_of};
use crate::types::{
    RewardAndPunishCollect, RewardAndPunishData, RewardAndPunishDetailValue,
    RewardAndPunishStatus,
};
use vstd::prelude::*;

verus! {

pub const API_PATH: &'static str = "/v1/getRewAndPun";

pub struct StatusView {
    pub kind: Seq<char>,
    pub times: u16,
}

pub struct DetailView {
    pub execute: Seq<char>,
    pub reason: Seq<char>,
    pub signed: Seq<char>,
    pub sold: Option<Seq<char>>,
    pub start: Seq<char>,
    pub kind: Seq<char>,
    pub year: u8,
}

impl View for RewardAndPunishStatus {
    type V = StatusView;

    open spec fn view(&self) -> StatusView {
        StatusView { kind: self.kind@, times: self.times }
    }
}

impl View for RewardAndPunishDetailValue {
    type V = DetailView;

    open spec fn view(&self) -> DetailView {
        DetailView {
            execute: self.execute@,
            reason: self.reason@,
            signed: self.signed@,
            sold: match self.sold {
                Some(text) => Some(text@),
                None => None,
            },
            start: self.start@,
            kind: self.kind@,
            year: self.year,
        }
    }
}

/// The counts of a list, as contracts see them.
pub open spec fn statuses_view(list: Vec<RewardAndPunishStatus>) -> Seq<StatusView> {
    list@.map_values(|status: RewardAndPunishStatus| status@)
}

/// The records of a list, as contracts see them.
pub open spec fn details_view(list: Vec<RewardAndPunishDetailValue>) -> Seq<DetailView> {
    list@.map_values(|detail: RewardAndPunishDetailValue| detail@)
}

/// The count that the cells `2 * k` and `2 * k + 1` of a row hold: the kind
/// in the first, and in the second how often it was given, as far as 16
/// bits hold it.
pub open spec fn status_at(cells: Seq<CellView>, k: int) -> StatusView {
    StatusView {
        kind: text_in(cells[2 * k]),
        times: low_word(number_in(text_in(cells[2 * k + 1]))),
    }
}

/// The counts that a row holds: one for each two cells, and a cell that is
/// left over at the end holds none.
pub open spec fn row_statuses(cells: Seq<CellView>) -> Seq<StatusView> {
    Seq::new((cells.len() / 2) as nat, |k: int| status_at(cells, k))
}

/// The counts of some rows, each read without its first cell; nothing where
/// a row has no cell.
pub open spec fn gathered(rows: Seq<Seq<CellView>>) -> Option<Seq<StatusView>>
    decreases rows.len(),
{
    if rows.len() == 0 {
        Some(Seq::empty())
    } else {
        match gathered(rows.drop_last()) {
            Some(before) => if rows.last().len() == 0 {
                None
            } else {
                Some(before + row_statuses(rows.last().skip(1)))
            },
            None => None,
        }
    }
}

/// The counts by kind, from the table bodies of the page with their rows
/// and cells: they stand in the last body but one, below its first row.
pub open spec fn summary_of(found: Option<Seq<Seq<Seq<CellView>>>>) -> Result<
    Seq<StatusView>,
    FetchError,
> {
    match found {
        Some(bodies) => if bodies.len() < 2 || bodies[bodies.len() - 2].len() == 0 {
            Err(FetchError::FetchFailed)
        } else {
            match gathered(bodies[bodies.len() - 2].skip(1)) {
                Some(list) => Ok(list),
                None => Err(FetchError::FetchFailed),
            }
        },
        None => Err(FetchError::FetchFailed),
    }
}

fn read_row(cells: &Vec<Cell>, list: &mut Vec<RewardAndPunishStatus>)
    requires
        cells.len() > 0,
    ensures
        statuses_view(*final(list)) == statuses_view(*old(list)) + row_statuses(
            row_view(*cells).skip(1),
        ),
{
    let ghost rest = row_view(*cells).skip(1);
    let ghost before = statuses_view(*list);
    let pairs: usize = (cells.len() - 1) / 2;
    let mut k: usize = 0;
    assert(statuses_view(*list) == before + row_statuses(rest).take(0));
    while k < pairs
        invariant
            k <= pairs,
            pairs == (cells.len() - 1) / 2,
            rest == row_view(*cells).skip(1),
            statuses_view(*list) == before + row_statuses(rest).take(k as int),
        decreases pairs - k,
    {
        let ghost shown = statuses_view(*list);
        assert(rest[2 * k] == cells@[2 * k + 1]@);
        assert(rest[2 * k + 1] == cells@[2 * k + 2]@);
        let status = RewardAndPunishStatus {
            kind: string_of(&cell_chars(&cells[2 * k + 1])),
            times: narrow_u16(number_of(&cell_chars(&cells[2 * k + 2]))),
        };
        assert(status@ == status_at(rest, k as int));
        list.push(status);
        assert(statuses_view(*list) == shown.push(status@));
        assert(row_statuses(rest).take(k + 1) == row_statuses(rest).take(k as int).push(
            status_at(rest, k as int),
        ));
        k += 1;
    }
    assert(row_statuses(rest).take(pairs as int) == row_statuses(rest));
}

/// Reads the counts by kind from the table bodies of the page.
#[verifier::loop_isolation(false)]
pub fn summarize(found: &Option<Vec<Vec<Vec<Cell>>>>) -> (read: Result<
    Vec<RewardAndPunishStatus>,
    FetchError,
>)
    ensures
        match read {
            Ok(list) => summary_of(found_tables(*found)) matches Ok(counts) && counts
                == statuses_view(list),
            Err(error) => summary_of(found_tables(*found)) matches Err(refusal) && refusal
                == error,
        },
{
    let bodies = match found {
        Some(bodies) => bodies,
        None => return Err(FetchError::FetchFailed),
    };
    if bodies.len() < 2 {
        return Err(FetchError::FetchFailed);
    }
    let rows = &bodies[bodies.len() - 2];
    assert(tables_view(*bodies)[bodies.len() - 2] == table_view(*rows));
    if rows.len() == 0 {
        return Err(FetchError::FetchFailed);
    }
    let ghost below = table_view(*rows).skip(1);
    let mut list: Vec<RewardAndPunishStatus> = Vec::new();
    let mut i: usize = 1;
    assert(below.take(0) == Seq::<Seq<CellView>>::empty());
    assert(statuses_view(list) == Seq::<StatusView>::empty());
    while i < rows.len()
        invariant
            1 <= i <= rows.len(),
            below == table_view(*rows).skip(1),
            gathered(below.take(i - 1)) == Some(statuses_view(list)),
        decreases rows.len() - i,
    {
        assert(below.take(i as int).drop_last() == below.take(i - 1));
        assert(below.take(i as int).last() == row_view(rows@[i as int]));
        if rows[i].len() == 0 {
            proof {
                lemma_gathered_fails(below, i as int);
            }
            return Err(FetchError::FetchFailed);
        }
        read_row(&rows[i], &mut list);
        i += 1;
    }
    assert(below.take(below.len() as int) == below);
    Ok(list)
}

/// Where the rows up to some row give nothing, all the rows give nothing.
pub proof fn lemma_gathered_fails(rows: Seq<Seq<CellView>>, upto: int)
    requires
        0 <= upto <= rows.len(),
        gathered(rows.take(upto)) is None,
    ensures
        gathered(rows) is None,
    decreases rows.len(),
{
    if upto == rows.len() {
        assert(rows.take(upto) == rows);
    } else {
        assert(rows.drop_last().take(upto) == rows.take(upto));
        lemma_gathered_fails(rows.drop_last(), upto);
    }
}

/// Reads the counts by kind from the page.
pub fn get_summarize(html: &str) -> (read: Result<Vec<RewardAndPunishStatus>, FetchError>)
    ensures
        match read {
            Ok(list) => summary_of(
                selected_cells(html@, "table > tbody"@, "tr"@, "td"@, ""@, ""@),
            ) matches Ok(counts) && counts == statuses_view(list),
            Err(error) => summary_of(
                selected_cells(html@, "table > tbody"@, "tr"@, "td"@, ""@, ""@),
            ) matches Err(refusal) && refusal == error,
        },
{
    summarize(&select_cells(html, "table > tbody", "tr", "td", "", ""))
}

/// The record that a row of seven cells or more holds: the kind, the day it
/// began, the day it was signed, the reason, what was done, whether and
/// when it was cancelled, and the year as far as 8 bits hold it. A
/// cancellation that reads as one no-break space is none.
pub open spec fn detail_of(cells: Seq<CellView>) -> DetailView {
    DetailView {
        kind: text_in(cells[0]),
        start: text_in(cells[1]),
        signed: text_in(cells[2]),
        reason: text_in(cells[3]),
        execute: text_in(cells[4]),
        sold: if text_in(cells[5]) == "\u{a0}"@ {
            None
        } else {
            Some(text_in(cells[5]))
        },
        year: low_byte(number_in(text_in(cells[6]))),
    }
}

/// The records of some rows; nothing where a row has fewer than seven
/// cells.
pub open spec fn details_of(rows: Seq<Seq<CellView>>) -> Option<Seq<DetailView>>
    decreases rows.len(),
{
    if rows.len() == 0 {
        Some(Seq::empty())
    } else {
        match details_of(rows.drop_last()) {
            Some(before) => if rows.last().len() < 7 {
                None
            } else {
                Some(before.push(detail_of(rows.last())))
            },
            None => None,
        }
    }
}

/// Where the rows up to some row give nothing, all the rows give nothing.
pub proof fn lemma_details_fail(rows: Seq<Seq<CellView>>, upto: int)
    requires
        0 <= upto <= rows.len(),
        details_of(rows.take(upto)) is None,
    ensures
        details_of(rows) is None,
    decreases rows.len(),
{
    if upto == rows.len() {
        assert(rows.take(upto) == rows);
    } else {
        assert(rows.drop_last().take(upto) == rows.take(upto));
        lemma_details_fail(rows.drop_last(), upto);
    }
}

/// The list of the records, from the data rows of the page and their
/// cells. The rows are looked for in the whole document, so one table is
/// awaited: that of the document itself.
pub open spec fn detail_list_of(found: Option<Seq<Seq<Seq<CellView>>>>) -> Result<
    Seq<DetailView>,
    FetchError,
> {
    match found {
        Some(tables) => if tables.len() != 1 {
            Err(FetchError::FetchFailed)
        } else {
            match details_of(tables[0]) {
                Some(list) => Ok(list),
                None => Err(FetchError::FetchFailed),
            }
        },
        None => Err(FetchError::FetchFailed),
    }
}

fn read_detail(cells: &Vec<Cell>) -> (detail: RewardAndPunishDetailValue)
    requires
        cells.len() >= 7,
    ensures
        detail@ == detail_of(row_view(*cells)),
{
    let cancelled = cell_chars(&cells[5]);
    let sold = if same_chars(&cancelled, &chars_of("\u{a0}")) {
        None
    } else {
        Some(string_of(&cancelled))
    };
    RewardAndPunishDetailValue {
        kind: string_of(&cell_chars(&cells[0])),
        start: string_of(&cell_chars(&cells[1])),
        signed: string_of(&cell_chars(&cells[2])),
        reason: string_of(&cell_chars(&cells[3])),
        execute: string_of(&cell_chars(&cells[4])),
        sold,
        year: narrow_u8(number_of(&cell_chars(&cells[6]))),
    }
}

/// Reads the list of the records from the data rows of the page.
#[verifier::loop_isolation(false)]
pub fn detail_list(found: &Option<Vec<Vec<Vec<Cell>>>>) -> (read: Result<
    Vec<RewardAndPunishDetailValue>,
    FetchError,
>)
    ensures
        match read {
            Ok(list) => detail_list_of(found_tables(*found)) matches Ok(records) && records
                == details_view(list),
            Err(error) => detail_list_of(found_tables(*found)) matches Err(refusal) && refusal
                == error,
        },
{
    let tables = match found {
        Some(tables) => tables,
        None => return Err(FetchError::FetchFailed),
    };
    if tables.len() != 1 {
        return Err(FetchError::FetchFailed);
    }
    let rows = &tables[0];
    assert(tables_view(*tables)[0] == table_view(*rows));
    let ghost all = table_view(*rows);
    let mut list: Vec<RewardAndPunishDetailValue> = Vec::new();
    let mut i: usize = 0;
    assert(all.take(0) == Seq::<Seq<CellView>>::empty());
    assert(details_view(list) == Seq::<DetailView>::empty());
    while i < rows.len()
        invariant
            i <= rows.len(),
            all == table_view(*rows),
            details_of(all.take(i as int)) == Some(details_view(list)),
        decreases rows.len() - i,
    {
        assert(all.take(i + 1).drop_last() == all.take(i as int));
        assert(all.take(i + 1).last() == row_view(rows@[i as int]));
        if rows[i].len() < 7 {
            proof {
                lemma_details_fail(all, i + 1);
            }
            return Err(FetchError::FetchFailed);
        }
        let ghost shown = details_view(list);
        let detail = read_detail(&rows[i]);
        list.push(detail);
        assert(details_view(list) == shown.push(detail@));
        i += 1;
    }
    assert(all.take(all.len() as int) == all);
    Ok(list)
}

/// Reads the list of the records from the page.
pub fn get_detail(html: &str) -> (read: Result<Vec<RewardAndPunishDetailValue>, FetchError>)
    ensures
        match read {
            Ok(list) => detail_list_of(
                selected_cells(html@, "html"@, "tr.dataRow"@, "td"@, ""@, ""@),
            ) matches Ok(records) && records == details_view(list),
            Err(error) => detail_list_of(
                selected_cells(html@, "html"@, "tr.dataRow"@, "td"@, ""@, ""@),
            ) matches Err(refusal) && refusal == error,
        },
{
    detail_list(&select_cells(html, "html", "tr.dataRow", "td", "", ""))
}

/// Reads the page of rewards and punishments. Both parts are read or none
/// is.
pub fn read_page(html: &str) -> (read: Result<RewardAndPunishCollect, FetchError>)
    ensures
        match read {
            Ok(collect) => {
                &&& summary_of(
                    selected_cells(html@, "table > tbody"@, "tr"@, "td"@, ""@, ""@),
                ) matches Ok(counts)
                &&& counts == statuses_view(collect.status)
                &&& detail_list_of(
                    selected_cells(html@, "html"@, "tr.dataRow"@, "td"@, ""@, ""@),
                ) matches Ok(records)
                &&& records == details_view(collect.detail)
            },
            Err(_) => summary_of(
                selected_cells(html@, "table > tbody"@, "tr"@, "td"@, ""@, ""@),
            ) is Err || detail_list_of(
                selected_cells(html@, "html"@, "tr.dataRow"@, "td"@, ""@, ""@),
            ) is Err,
        },
{
    let status = match get_summarize(html) {
        Ok(list) => list,
        Err(error) => return Err(error),
    };
    let detail = match get_detail(html) {
        Ok(list) => list,
        Err(error) => return Err(error),
    };
    Ok(RewardAndPunishCollect { detail, status })
}

/// The answer to a request for the rewards and punishments.
pub fn respond(data: RewardAndPunishCollect) -> (answer: RewardAndPunishData)
    ensures
        answer.message@ == "Get reward and punish successful"@,
        answer.data == data,
{
    RewardAndPunishData { message: "Get reward and punish successful".to_owned(), data }
}

} // verus!
