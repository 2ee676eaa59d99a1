//! The page of absences: the counts by kind for each term, and the record
//! day by day.

use crate::error::FetchError;
use crate::html::{
    found_tables, row_view, select_cells, selected_cells, table_view, tables_view, Cell, CellView,
};
use crate::page::{cell_chars, low_word, narrow_u16, number_in, number_of, text_in};
use crate::text::string_of;
use crate::types::{LackCollect, LackData, LackRecordValue, LackStatus, LackStatusValue};
use vstd::prelude::*;

verus! {

pub const API_PATH: &'static str = "/v1/getLack";

/// How many kinds of absence the summary counts.
pub const KINDS: usize = 18;

pub struct CountView {
    pub name: Seq<char>,
    pub value: u16,
}

pub struct DayView {
    pub data: Seq<Option<Seq<char>>>,
    pub date: Seq<char>,
    pub week: Seq<char>,
}

impl View for LackStatusValue {
    type V = CountView;

    open spec fn view(&self) -> CountView {
        CountView { name: self.name@, value: self.value }
    }
}

/// What the periods of a day show, as contracts see it.
pub open spec fn periods_view(data: Vec<Option<String>>) -> Seq<Option<Seq<char>>> {
    data@.map_values(
        |shown: Option<String>|
            match shown {
                Some(text) => Some(text@),
                None => None,
            },
    )
}

impl View for LackRecordValue {
    type V = DayView;

    open spec fn view(&self) -> DayView {
        DayView { data: periods_view(self.data), date: self.date@, week: self.week@ }
    }
}

/// The counts of a list, as contracts see them.
pub open spec fn counts_view(list: Vec<LackStatusValue>) -> Seq<CountView> {
    list@.map_values(|count: LackStatusValue| count@)
}

/// The days of a list, as contracts see them.
pub open spec fn days_view(list: Vec<LackRecordValue>) -> Seq<DayView> {
    list@.map_values(|day: LackRecordValue| day@)
}

/// The places of the rows that hold names or counts: those whose first cell
/// spans no columns. Nothing where a row has no cell.
pub open spec fn plain_rows(rows: Seq<Seq<CellView>>) -> Option<Seq<int>>
    decreases rows.len(),
{
    if rows.len() == 0 {
        Some(Seq::empty())
    } else {
        match plain_rows(rows.drop_last()) {
            Some(before) => if rows.last().len() == 0 {
                None
            } else if rows.last()[0].attribute is None {
                Some(before.push(rows.len() - 1))
            } else {
                Some(before)
            },
            None => None,
        }
    }
}

/// Where the rows up to some row give nothing, all the rows give nothing.
pub proof fn lemma_plain_rows_fail(rows: Seq<Seq<CellView>>, upto: int)
    requires
        0 <= upto <= rows.len(),
        plain_rows(rows.take(upto)) is None,
    ensures
        plain_rows(rows) is None,
    decreases rows.len(),
{
    if upto == rows.len() {
        assert(rows.take(upto) == rows);
    } else {
        assert(rows.drop_last().take(upto) == rows.take(upto));
        lemma_plain_rows_fail(rows.drop_last(), upto);
    }
}

/// The places in a list, as numbers.
pub open spec fn places_view(places: Vec<usize>) -> Seq<int> {
    places@.map_values(|place: usize| place as int)
}

#[verifier::loop_isolation(false)]
fn find_plain_rows(rows: &Vec<Vec<Cell>>) -> (places: Option<Vec<usize>>)
    ensures
        match places {
            Some(list) => plain_rows(table_view(*rows)) == Some(places_view(list))
                && forall|k: int| 0 <= k < list@.len() ==> list@[k] < rows@.len(),
            None => plain_rows(table_view(*rows)) is None,
        },
{
    let ghost all = table_view(*rows);
    let mut list: Vec<usize> = Vec::new();
    let mut i: usize = 0;
    assert(all.take(0) == Seq::<Seq<CellView>>::empty());
    assert(places_view(list) == Seq::<int>::empty());
    while i < rows.len()
        invariant
            i <= rows.len(),
            plain_rows(all.take(i as int)) == Some(places_view(list)),
            forall|k: int| 0 <= k < list@.len() ==> list@[k] < i,
        decreases rows.len() - i,
    {
        assert(all.take(i + 1).drop_last() == all.take(i as int));
        assert(all.take(i + 1).last() == row_view(rows@[i as int]));
        if rows[i].len() == 0 {
            proof {
                lemma_plain_rows_fail(all, i + 1);
            }
            return None;
        }
        assert(row_view(rows@[i as int])[0] == rows@[i as int]@[0]@);
        if rows[i][0].attribute.is_none() {
            let ghost shown = places_view(list);
            list.push(i);
            assert(places_view(list) == shown.push(i as int));
        }
        i += 1;
    }
    assert(all.take(all.len() as int) == all);
    Some(list)
}

/// The count of the kind at place `i`: the name from the row of names, and
/// the number from the row of counts, as far as 16 bits hold it.
pub open spec fn count_at(names: Seq<CellView>, values: Seq<CellView>, i: int) -> CountView {
    CountView { name: text_in(names[i]), value: low_word(number_in(text_in(values[i]))) }
}

/// The counts of one term, from its row of names and its row of counts.
pub open spec fn term_counts(names: Seq<CellView>, values: Seq<CellView>) -> Seq<CountView> {
    Seq::new(KINDS as nat, |i: int| count_at(names, values, i))
}

fn read_term(names: &Vec<Cell>, values: &Vec<Cell>) -> (list: Vec<LackStatusValue>)
    requires
        names.len() >= KINDS,
        values.len() >= KINDS,
    ensures
        counts_view(list) == term_counts(row_view(*names), row_view(*values)),
{
    let ghost wanted = term_counts(row_view(*names), row_view(*values));
    let mut list: Vec<LackStatusValue> = Vec::new();
    let mut i: usize = 0;
    assert(counts_view(list) == wanted.take(0));
    while i < KINDS
        invariant
            i <= KINDS,
            names.len() >= KINDS,
            values.len() >= KINDS,
            wanted == term_counts(row_view(*names), row_view(*values)),
            counts_view(list) == wanted.take(i as int),
        decreases KINDS - i,
    {
        let ghost shown = counts_view(list);
        assert(row_view(*names)[i as int] == names@[i as int]@);
        assert(row_view(*values)[i as int] == values@[i as int]@);
        let count = LackStatusValue {
            name: string_of(&cell_chars(&names[i])),
            value: narrow_u16(number_of(&cell_chars(&values[i]))),
        };
        list.push(count);
        assert(counts_view(list) == shown.push(count@));
        assert(wanted.take(i + 1) == wanted.take(i as int).push(wanted[i as int]));
        i += 1;
    }
    assert(wanted.take(KINDS as int) == wanted);
    list
}

/// The counts of both terms, upper term first, from the summary tables of
/// the page with their rows and cells and the `colspan` of each cell.
///
/// The first table counts. Of its rows, those whose first cell spans no
/// columns are read: the first holds the names and the second the counts of
/// the upper term, the third and the fourth those of the lower term. Each
/// of the four has to hold all the kinds.
pub open spec fn summary_of(found: Option<Seq<Seq<Seq<CellView>>>>) -> Result<
    (Seq<CountView>, Seq<CountView>),
    FetchError,
> {
    match found {
        Some(tables) => if tables.len() == 0 {
            Err(FetchError::FetchFailed)
        } else {
            match plain_rows(tables[0]) {
                Some(places) => if places.len() >= 4 && tables[0][places[0]].len() >= KINDS
                    && tables[0][places[1]].len() >= KINDS && tables[0][places[2]].len()
                    >= KINDS && tables[0][places[3]].len() >= KINDS {
                    Ok(
                        (
                            term_counts(tables[0][places[0]], tables[0][places[1]]),
                            term_counts(tables[0][places[2]], tables[0][places[3]]),
                        ),
                    )
                } else {
                    Err(FetchError::FetchFailed)
                },
                None => Err(FetchError::FetchFailed),
            }
        },
        None => Err(FetchError::FetchFailed),
    }
}

/// The counts of both terms, as contracts see them.
pub open spec fn status_view(status: LackStatus) -> (Seq<CountView>, Seq<CountView>) {
    (counts_view(status.termUp), counts_view(status.termDown))
}

/// Reads the counts of both terms from the summary tables of the page.
pub fn summary(found: &Option<Vec<Vec<Vec<Cell>>>>) -> (read: Result<LackStatus, FetchError>)
    ensures
        match read {
            Ok(status) => summary_of(found_tables(*found)) matches Ok(counts) && counts
                == status_view(status),
            Err(error) => summary_of(found_tables(*found)) matches Err(refusal) && refusal
                == error,
        },
{
    let tables = match found {
        Some(tables) => tables,
        None => return Err(FetchError::FetchFailed),
    };
    if tables.len() == 0 {
        return Err(FetchError::FetchFailed);
    }
    let rows = &tables[0];
    assert(tables_view(*tables)[0] == table_view(*rows));
    let places = match find_plain_rows(rows) {
        Some(places) => places,
        None => return Err(FetchError::FetchFailed),
    };
    if places.len() < 4 {
        return Err(FetchError::FetchFailed);
    }
    assert(places_view(places)[0] == places@[0]);
    assert(places_view(places)[1] == places@[1]);
    assert(places_view(places)[2] == places@[2]);
    assert(places_view(places)[3] == places@[3]);
    let upper_names = &rows[places[0]];
    let upper_counts = &rows[places[1]];
    let lower_names = &rows[places[2]];
    let lower_counts = &rows[places[3]];
    assert(table_view(*rows)[places@[0] as int] == row_view(*upper_names));
    assert(table_view(*rows)[places@[1] as int] == row_view(*upper_counts));
    assert(table_view(*rows)[places@[2] as int] == row_view(*lower_names));
    assert(table_view(*rows)[places@[3] as int] == row_view(*lower_counts));
    if upper_names.len() < KINDS || upper_counts.len() < KINDS || lower_names.len() < KINDS
        || lower_counts.len() < KINDS {
        return Err(FetchError::FetchFailed);
    }
    Ok(
        LackStatus {
            termUp: read_term(upper_names, upper_counts),
            termDown: read_term(lower_names, lower_counts),
        },
    )
}

/// What a period shows: the text of its cell, and nothing for an empty
/// cell.
pub open spec fn period_of(cell: CellView) -> Option<Seq<char>> {
    if text_in(cell).len() == 0 {
        None
    } else {
        Some(text_in(cell))
    }
}

/// The day that a row holds: the day of the week in its first cell, the
/// date in its second, and a period in each cell from the fourth on. A cell
/// that the row lacks reads as empty.
pub open spec fn day_of(cells: Seq<CellView>) -> DayView {
    DayView {
        week: if cells.len() > 0 {
            text_in(cells[0])
        } else {
            Seq::empty()
        },
        date: if cells.len() > 1 {
            text_in(cells[1])
        } else {
            Seq::empty()
        },
        data: if cells.len() > 3 {
            cells.skip(3).map_values(|cell: CellView| period_of(cell))
        } else {
            Seq::empty()
        },
    }
}

fn read_day(cells: &Vec<Cell>) -> (day: LackRecordValue)
    ensures
        day@ == day_of(row_view(*cells)),
{
    let ghost all = row_view(*cells);
    let week = if cells.len() > 0 {
        assert(all[0] == cells@[0]@);
        string_of(&cell_chars(&cells[0]))
    } else {
        String::new()
    };
    let date = if cells.len() > 1 {
        assert(all[1] == cells@[1]@);
        string_of(&cell_chars(&cells[1]))
    } else {
        String::new()
    };
    let mut data: Vec<Option<String>> = Vec::new();
    if cells.len() > 3 {
        let ghost wanted = all.skip(3).map_values(|cell: CellView| period_of(cell));
        let mut i: usize = 3;
        assert(periods_view(data) == wanted.take(0));
        while i < cells.len()
            invariant
                3 <= i <= cells.len(),
                all == row_view(*cells),
                wanted == all.skip(3).map_values(|cell: CellView| period_of(cell)),
                periods_view(data) == wanted.take(i - 3),
            decreases cells.len() - i,
        {
            let ghost shown = periods_view(data);
            assert(all.skip(3)[i - 3] == cells@[i as int]@);
            let text = cell_chars(&cells[i]);
            let period = if text.len() == 0 {
                None
            } else {
                Some(string_of(&text))
            };
            data.push(period);
            assert(periods_view(data) == shown.push(period_of(cells@[i as int]@)));
            assert(wanted.take(i + 1 - 3) == wanted.take(i - 3).push(wanted[i - 3]));
            i += 1;
        }
        assert(wanted.take(wanted.len() as int) == wanted);
    } else {
        assert(periods_view(data) == Seq::<Option<Seq<char>>>::empty());
    }
    LackRecordValue { data, date, week }
}

/// The record day by day, from the record tables of the page with their
/// rows and cells: the rows of the first table, one day each.
pub open spec fn record_of(found: Option<Seq<Seq<Seq<CellView>>>>) -> Result<
    Seq<DayView>,
    FetchError,
> {
    match found {
        Some(tables) => if tables.len() == 0 {
            Err(FetchError::FetchFailed)
        } else {
            Ok(tables[0].map_values(|cells: Seq<CellView>| day_of(cells)))
        },
        None => Err(FetchError::FetchFailed),
    }
}

/// Reads the record day by day from the record tables of the page.
#[verifier::loop_isolation(false)]
pub fn record(found: &Option<Vec<Vec<Vec<Cell>>>>) -> (read: Result<
    Vec<LackRecordValue>,
    FetchError,
>)
    ensures
        match read {
            Ok(list) => record_of(found_tables(*found)) matches Ok(days) && days == days_view(
                list,
            ),
            Err(error) => record_of(found_tables(*found)) matches Err(refusal) && refusal
                == error,
        },
{
    let tables = match found {
        Some(tables) => tables,
        None => return Err(FetchError::FetchFailed),
    };
    if tables.len() == 0 {
        return Err(FetchError::FetchFailed);
    }
    let rows = &tables[0];
    assert(tables_view(*tables)[0] == table_view(*rows));
    let ghost wanted = table_view(*rows).map_values(|cells: Seq<CellView>| day_of(cells));
    let mut list: Vec<LackRecordValue> = Vec::new();
    let mut i: usize = 0;
    assert(days_view(list) == wanted.take(0));
    while i < rows.len()
        invariant
            i <= rows.len(),
            days_view(list) == wanted.take(i as int),
        decreases rows.len() - i,
    {
        let ghost shown = days_view(list);
        assert(table_view(*rows)[i as int] == row_view(rows@[i as int]));
        let day = read_day(&rows[i]);
        list.push(day);
        assert(days_view(list) == shown.push(day@));
        assert(wanted.take(i + 1) == wanted.take(i as int).push(wanted[i as int]));
        i += 1;
    }
    assert(wanted.take(wanted.len() as int) == wanted);
    Ok(list)
}

/// Reads the page of absences. Both parts are read or none is.
pub fn read_page(document: &str) -> (read: Result<LackCollect, FetchError>)
    ensures
        match read {
            Ok(collect) => {
                &&& summary_of(
                    selected_cells(
                        document@,
                        "table.si_12.collapse.padding2.spacing0"@,
                        "tr"@,
                        "td"@,
                        "colspan"@,
                        ""@,
                    ),
                ) matches Ok(counts)
                &&& counts == status_view(collect.total)
                &&& record_of(
                    selected_cells(
                        document@,
                        "table.padding2.spacing0"@,
                        "tr:not(.td_03.si_12.le_05.top.center)"@,
                        "td"@,
                        ""@,
                        ""@,
                    ),
                ) matches Ok(days)
                &&& days == days_view(collect.record)
            },
            Err(_) => summary_of(
                selected_cells(
                    document@,
                    "table.si_12.collapse.padding2.spacing0"@,
                    "tr"@,
                    "td"@,
                    "colspan"@,
                    ""@,
                ),
            ) is Err || record_of(
                selected_cells(
                    document@,
                    "table.padding2.spacing0"@,
                    "tr:not(.td_03.si_12.le_05.top.center)"@,
                    "td"@,
                    ""@,
                    ""@,
                ),
            ) is Err,
        },
{
    let total = match summary(
        &select_cells(document, "table.si_12.collapse.padding2.spacing0", "tr", "td", "colspan", ""),
    ) {
        Ok(status) => status,
        Err(error) => return Err(error),
    };
    let record = match record(
        &select_cells(
            document,
            "table.padding2.spacing0",
            "tr:not(.td_03.si_12.le_05.top.center)",
            "td",
            "",
            "",
        ),
    ) {
        Ok(list) => list,
        Err(error) => return Err(error),
    };
    Ok(LackCollect { record, total })
}

/// The answer to a request for the absences.
pub fn respond(data: LackCollect) -> (answer: LackData)
    ensures
        answer.message@ == "Get lack successful"@,
        answer.data == data,
{
    LackData { message: "Get lack successful".to_owned(), data }
}

} // verus!
