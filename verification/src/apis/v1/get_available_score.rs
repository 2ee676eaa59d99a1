//! The page that lists the examinations whose scores can be asked for.

use crate::error::FetchError;
use crate::html::{
    element_view, select_attribute, select_inner_html, selected_attribute, selected_inner_html,
    values_view,
};
use crate::page::{contains, holds, low_byte, narrow_u8, number_in, number_of};
use crate::text::{append_chars, chars_of, string_of};
use crate::types::{AvailableScoreData, AvailableScoreValue};
use crate::utils::{find_string_in_url, pairs_view, parsed_query, query_pairs, value_of};
use vstd::prelude::*;
use vstd::utf8::{encode_utf8, is_char_boundary};

verus! {

pub const API_PATH: &'static str = "/v1/getAvailableScore";

pub struct EntryView {
    pub name: Seq<char>,
    pub term: u8,
    pub test_id: Seq<char>,
    pub times: u8,
    pub kind: u8,
    pub year: u8,
}

impl View for AvailableScoreValue {
    type V = EntryView;

    open spec fn view(&self) -> EntryView {
        EntryView {
            name: self.name@,
            term: self.term,
            test_id: self.testID@,
            times: self.times,
            kind: self.kind,
            year: self.year,
        }
    }
}

/// The entries of a list, as contracts see them.
pub open spec fn entries_view(list: Vec<AvailableScoreValue>) -> Seq<EntryView> {
    list@.map_values(|entry: AvailableScoreValue| entry@)
}

/// Which examination of the term an identifier names: the digit that is
/// its fourth byte, and 0 where that byte is another character of ASCII.
/// Nothing where the identifier has no fourth byte, or where that byte is a
/// part of a longer character.
pub open spec fn times_in(test_id: Seq<char>) -> Option<u8> {
    let bytes = encode_utf8(test_id);
    if bytes.len() >= 4 && is_char_boundary(bytes, 3) && is_char_boundary(bytes, 4) {
        if 0x30 <= bytes[3] <= 0x39 {
            Some((bytes[3] - 0x30) as u8)
        } else {
            Some(0u8)
        }
    } else {
        None
    }
}

/// Reads from an identifier which examination of the term it names.
pub fn times_of(test_id: &str) -> (times: Option<u8>)
    ensures
        times == times_in(test_id@),
{
    let bytes = test_id.as_bytes();
    assert(bytes@ == encode_utf8(test_id@));
    if bytes.len() >= 4 && test_id.is_char_boundary(3) && test_id.is_char_boundary(4) {
        let byte: u8 = bytes[3];
        if 0x30 <= byte && byte <= 0x39 {
            Some(byte - 0x30)
        } else {
            Some(0)
        }
    } else {
        None
    }
}

/// The entry of an option of the list, from what the option shows and from
/// the pairs in the query of its value: the year and the term as far as 8
/// bits hold them, the identifier of the examination, and the kind, which
/// is 2 for the scores of ordinary days and 1 for any other.
pub open spec fn entry_of(name: Seq<char>, pairs: Seq<(Seq<char>, Seq<char>)>) -> Result<
    EntryView,
    FetchError,
> {
    match times_in(value_of(pairs, "number"@)) {
        Some(times) => Ok(
            EntryView {
                name,
                year: low_byte(number_in(value_of(pairs, "thisyear"@))),
                term: low_byte(number_in(value_of(pairs, "thisterm"@))),
                test_id: value_of(pairs, "number"@),
                times,
                kind: if holds(name, "平時成績"@) {
                    2u8
                } else {
                    1u8
                },
            },
        ),
        None => Err(FetchError::FetchFailed),
    }
}

/// Makes the entry of an option of the list.
pub fn read_entry(name: &str, pairs: &Vec<(String, String)>) -> (entry: Result<
    AvailableScoreValue,
    FetchError,
>)
    ensures
        match entry {
            Ok(made) => entry_of(name@, pairs_view(*pairs)) matches Ok(value) && value == made@,
            Err(error) => entry_of(name@, pairs_view(*pairs)) matches Err(refusal) && refusal
                == error,
        },
{
    let test_id = find_string_in_url(pairs, "number");
    let times = match times_of(test_id.as_str()) {
        Some(times) => times,
        None => return Err(FetchError::FetchFailed),
    };
    let year = narrow_u8(number_of(&chars_of(find_string_in_url(pairs, "thisyear").as_str())));
    let term = narrow_u8(number_of(&chars_of(find_string_in_url(pairs, "thisterm").as_str())));
    let kind: u8 = if contains(&chars_of(name), &chars_of("平時成績")) {
        2
    } else {
        1
    };
    Ok(AvailableScoreValue { name: name.to_owned(), term, testID: test_id, times, kind, year })
}

/// The address that the value of an option is read as: the value under a
/// host that stands for the portal.
pub open spec fn option_address(value: Seq<char>) -> Seq<char> {
    "http://example.com/"@ + value
}

/// The address that the value of an option is read as.
pub fn address_of_option(value: &str) -> (address: String)
    ensures
        address@ == option_address(value@),
{
    let mut address = chars_of("http://example.com/");
    append_chars(&mut address, &chars_of(value));
    string_of(&address)
}

/// The entry of the option at place `i`: the option has to have a value
/// that reads as an address.
pub open spec fn option_entry(values: Seq<Option<Seq<char>>>, shown: Seq<Seq<char>>, i: int) -> Result<
    EntryView,
    FetchError,
> {
    match values[i] {
        Some(value) => match parsed_query(option_address(value)) {
            Some(pairs) => entry_of(shown[i], pairs),
            None => Err(FetchError::FetchFailed),
        },
        None => Err(FetchError::FetchFailed),
    }
}

/// The entries of the options from place 2 up to, not including, place
/// `upto`; nothing where an option gives none.
pub open spec fn entries_upto(values: Seq<Option<Seq<char>>>, shown: Seq<Seq<char>>, upto: int) -> Option<
    Seq<EntryView>,
>
    decreases upto,
{
    if upto <= 2 {
        Some(Seq::empty())
    } else {
        match (entries_upto(values, shown, upto - 1), option_entry(values, shown, upto - 1)) {
            (Some(before), Ok(entry)) => Some(before.push(entry)),
            _ => None,
        }
    }
}

/// Where the options up to some place give nothing, the options up to any
/// later place give nothing.
pub proof fn lemma_entries_fail(values: Seq<Option<Seq<char>>>, shown: Seq<Seq<char>>, upto: int, end: int)
    requires
        upto <= end,
        entries_upto(values, shown, upto) is None,
    ensures
        entries_upto(values, shown, end) is None,
    decreases end - upto,
{
    if upto < end {
        lemma_entries_fail(values, shown, upto, end - 1);
    }
}

/// The examinations on offer, from the `value` of the options of the list
/// and from what each option shows. The first two options are headings and
/// are passed over; a list without them is none.
pub open spec fn entries_of(values: Option<Seq<Option<Seq<char>>>>, shown: Option<Seq<Seq<char>>>) -> Result<
    Seq<EntryView>,
    FetchError,
> {
    match (values, shown) {
        (Some(values), Some(shown)) => if values.len() != shown.len() || values.len() < 2 {
            Err(FetchError::FetchFailed)
        } else {
            match entries_upto(values, shown, values.len() as int) {
                Some(list) => Ok(list),
                None => Err(FetchError::FetchFailed),
            }
        },
        _ => Err(FetchError::FetchFailed),
    }
}

/// Reads the examinations on offer from the page.
#[verifier::loop_isolation(false)]
pub fn read_page(document: &str) -> (read: Result<Vec<AvailableScoreValue>, FetchError>)
    ensures
        match read {
            Ok(list) => entries_of(
                selected_attribute(document@, "#ddlExamList > option"@, "value"@),
                selected_inner_html(document@, "#ddlExamList > option"@),
            ) matches Ok(entries) && entries == entries_view(list),
            Err(error) => entries_of(
                selected_attribute(document@, "#ddlExamList > option"@, "value"@),
                selected_inner_html(document@, "#ddlExamList > option"@),
            ) matches Err(refusal) && refusal == error,
        },
{
    let values = match select_attribute(document, "#ddlExamList > option", "value") {
        Some(values) => values,
        None => return Err(FetchError::FetchFailed),
    };
    let shown = match select_inner_html(document, "#ddlExamList > option") {
        Some(shown) => shown,
        None => return Err(FetchError::FetchFailed),
    };
    if values.len() != shown.len() || values.len() < 2 {
        return Err(FetchError::FetchFailed);
    }
    let ghost value_views = values_view(values);
    let ghost shown_views = element_view(shown);
    let mut list: Vec<AvailableScoreValue> = Vec::new();
    let mut i: usize = 2;
    assert(entries_view(list) == Seq::<EntryView>::empty());
    while i < values.len()
        invariant
            2 <= i <= values.len(),
            entries_upto(value_views, shown_views, i as int) == Some(entries_view(list)),
        decreases values.len() - i,
    {
        assert(value_views[i as int] == match values@[i as int] {
            Some(text) => Some(text@),
            None => None,
        });
        assert(shown_views[i as int] == shown@[i as int]@);
        let value = match &values[i] {
            Some(value) => value,
            None => {
                proof {
                    lemma_entries_fail(value_views, shown_views, i + 1, values@.len() as int);
                }
                return Err(FetchError::FetchFailed);
            },
        };
        let pairs = match query_pairs(address_of_option(value.as_str()).as_str()) {
            Some(pairs) => pairs,
            None => {
                proof {
                    lemma_entries_fail(value_views, shown_views, i + 1, values@.len() as int);
                }
                return Err(FetchError::FetchFailed);
            },
        };
        let entry = match read_entry(shown[i].as_str(), &pairs) {
            Ok(entry) => entry,
            Err(error) => {
                proof {
                    lemma_entries_fail(value_views, shown_views, i + 1, values@.len() as int);
                }
                return Err(error);
            },
        };
        let ghost before = entries_view(list);
        list.push(entry);
        assert(entries_view(list) == before.push(entry@));
        i += 1;
    }
    Ok(list)
}

/// The answer to a request for the examinations on offer.
pub fn respond(data: Vec<AvailableScoreValue>) -> (answer: AvailableScoreData)
    ensures
        answer.message@ == "Get available score data successful"@,
        answer.data == data,
{
    AvailableScoreData { message: "Get available score data successful".to_owned(), data }
}

} // verus!
