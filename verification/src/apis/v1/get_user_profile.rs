//! The profile page: the fields of the profile, and the picture.

use crate::error::FetchError;
use crate::html::{
    first_value, found_tables, row_view, select_attribute, select_cells, selected_attribute,
    selected_cells, table_view, tables_view, values_view, Cell, CellView,
};
use crate::http::{rewritten, APIPaths, ReplaceString};
use crate::page::{cell_chars, squeeze, squeezed, text_in};
use crate::relay::{request_is, Method, UpstreamRequest};
use crate::text::{append_chars, chars_of, replace_all, replaced, string_of};
use crate::types::{AuthToken, UserCollect, UserData, UserDataValues};
use crate::utils::{
    base64_text, buffer_to_base64, combine_path, create_auth_header, find_named, first_named,
    found_pairs, parsed_query, query_pairs, BASE64_INPUT_MAX,
};
use vstd::prelude::*;

verus! {

pub const API_PATH: &'static str = "/v1/login";

pub const BASE64_IMAGE_HEAD: &'static str = "data:image/png;base64,";

pub struct FieldView {
    pub name: Seq<char>,
    pub value: Seq<char>,
}

impl View for UserDataValues {
    type V = FieldView;

    open spec fn view(&self) -> FieldView {
        FieldView { name: self.name@, value: self.value@ }
    }
}

/// The fields of a list, as contracts see them.
pub open spec fn fields_view(list: Vec<UserDataValues>) -> Seq<FieldView> {
    list@.map_values(|field: UserDataValues| field@)
}

/// The name of a field: the text of its cell without the spaces of either
/// width and without the line breaks.
pub open spec fn field_name(text: Seq<char>) -> Seq<char> {
    replaced(replaced(replaced(text, " "@, ""@), "　"@, ""@), "\n"@, ""@)
}

/// The cells of a row that hold fields: all but the first where the row has
/// more than four, and all where it has four or fewer.
pub open spec fn field_cells(cells: Seq<CellView>) -> Seq<CellView> {
    if cells.len() > 4 {
        cells.skip(1)
    } else {
        cells
    }
}

/// The field that the cells `2 * k` and `2 * k + 1` hold: the name in the
/// first and the value in the second.
pub open spec fn field_at(cells: Seq<CellView>, k: int) -> FieldView {
    FieldView {
        name: field_name(text_in(cells[2 * k])),
        value: squeezed(text_in(cells[2 * k + 1])),
    }
}

/// The fields of a row: one for each two of its field cells.
pub open spec fn row_fields(cells: Seq<CellView>) -> Seq<FieldView> {
    Seq::new((field_cells(cells).len() / 2) as nat, |k: int| field_at(field_cells(cells), k))
}

/// The fields of some rows, the first row first.
pub open spec fn fields_of(rows: Seq<Seq<CellView>>) -> Seq<FieldView>
    decreases rows.len(),
{
    if rows.len() == 0 {
        Seq::empty()
    } else {
        fields_of(rows.drop_last()) + row_fields(rows.last())
    }
}

/// The fields of the profile, from the rows of the profile table and their
/// cells. The rows are looked for in the whole document, so one table is
/// awaited: that of the document itself.
pub open spec fn profile_fields_of(found: Option<Seq<Seq<Seq<CellView>>>>) -> Result<
    Seq<FieldView>,
    FetchError,
> {
    match found {
        Some(tables) => if tables.len() != 1 {
            Err(FetchError::FetchFailed)
        } else {
            Ok(fields_of(tables[0]))
        },
        None => Err(FetchError::FetchFailed),
    }
}

fn read_row(cells: &Vec<Cell>, list: &mut Vec<UserDataValues>)
    ensures
        fields_view(*final(list)) == fields_view(*old(list)) + row_fields(row_view(*cells)),
{
    let ghost held = field_cells(row_view(*cells));
    let ghost before = fields_view(*list);
    let first: usize = if cells.len() > 4 {
        1
    } else {
        0
    };
    let pairs: usize = (cells.len() - first) / 2;
    let mut k: usize = 0;
    assert(fields_view(*list) == before + row_fields(row_view(*cells)).take(0));
    while k < pairs
        invariant
            k <= pairs,
            first <= 1,
            first <= cells.len(),
            pairs == (cells.len() - first) / 2,
            held == field_cells(row_view(*cells)),
            held == row_view(*cells).skip(first as int),
            fields_view(*list) == before + row_fields(row_view(*cells)).take(k as int),
        decreases pairs - k,
    {
        let ghost shown = fields_view(*list);
        assert(held[2 * k] == cells@[first + 2 * k]@);
        assert(held[2 * k + 1] == cells@[first + 2 * k + 1]@);
        let empty = chars_of("");
        let name = cell_chars(&cells[first + 2 * k]);
        let name = replace_all(&name, &chars_of(" "), &empty);
        let name = replace_all(&name, &chars_of("　"), &empty);
        let name = replace_all(&name, &chars_of("\n"), &empty);
        let field = UserDataValues {
            name: string_of(&name),
            value: string_of(&squeeze(&cell_chars(&cells[first + 2 * k + 1]))),
        };
        assert(field@ == field_at(held, k as int));
        list.push(field);
        assert(fields_view(*list) == shown.push(field@));
        assert(row_fields(row_view(*cells)).take(k + 1) == row_fields(row_view(*cells)).take(
            k as int,
        ).push(field_at(held, k as int)));
        k += 1;
    }
    assert(row_fields(row_view(*cells)).take(pairs as int) == row_fields(row_view(*cells)));
}

/// Reads the fields of the profile from the rows of the profile table.
#[verifier::loop_isolation(false)]
pub fn profile_fields(found: &Option<Vec<Vec<Vec<Cell>>>>) -> (read: Result<
    Vec<UserDataValues>,
    FetchError,
>)
    ensures
        match read {
            Ok(list) => profile_fields_of(found_tables(*found)) matches Ok(fields) && fields
                == fields_view(list),
            Err(error) => profile_fields_of(found_tables(*found)) matches Err(refusal)
                && refusal == error,
        },
{
    let tables = match found {
        Some(tables) => tables,
        None => return Err(FetchError::FetchFailed),
    };
    if tables.len() != 1 {
        return Err(FetchError::FetchFailed);
    }
    let rows = &tables[0];
    assert(tables_view(*tables)[0] == table_view(*rows));
    let ghost all = table_view(*rows);
    let mut list: Vec<UserDataValues> = Vec::new();
    let mut i: usize = 0;
    assert(all.take(0) == Seq::<Seq<CellView>>::empty());
    assert(fields_view(list) == Seq::<FieldView>::empty());
    while i < rows.len()
        invariant
            i <= rows.len(),
            fields_of(all.take(i as int)) == fields_view(list),
        decreases rows.len() - i,
    {
        assert(all.take(i + 1).drop_last() == all.take(i as int));
        assert(all.take(i + 1).last() == row_view(rows@[i as int]));
        read_row(&rows[i], &mut list);
        i += 1;
    }
    assert(all.take(all.len() as int) == all);
    Ok(list)
}

/// Reads the fields of the profile from the page.
pub fn get_datas(document: &str) -> (read: Result<Vec<UserDataValues>, FetchError>)
    ensures
        match read {
            Ok(list) => profile_fields_of(
                selected_cells(
                    document@,
                    "html"@,
                    "table[class='le_04 padding2 spacing2'] tr"@,
                    "td"@,
                    ""@,
                    ""@,
                ),
            ) matches Ok(fields) && fields == fields_view(list),
            Err(error) => profile_fields_of(
                selected_cells(
                    document@,
                    "html"@,
                    "table[class='le_04 padding2 spacing2'] tr"@,
                    "td"@,
                    ""@,
                    ""@,
                ),
            ) matches Err(refusal) && refusal == error,
        },
{
    profile_fields(
        &select_cells(document, "html", "table[class='le_04 padding2 spacing2'] tr", "td", "", ""),
    )
}

/// The address that the picture's source is read as: the source without
/// its steps upward, under a host that stands for the portal.
pub open spec fn picture_address(source: Seq<char>) -> Seq<char> {
    "http://example.com/"@ + replaced(source, "../"@, ""@)
}

/// The address that the picture's source is read as.
pub fn address_of_picture(source: &str) -> (address: String)
    ensures
        address@ == picture_address(source@),
{
    let mut address = chars_of("http://example.com/");
    let path = replace_all(&chars_of(source), &chars_of("../"), &chars_of(""));
    append_chars(&mut address, &path);
    string_of(&address)
}

/// The `id` in the query of the picture's address; none where the address
/// cannot be read or has no `id`.
pub open spec fn picture_id_in(pairs: Option<Seq<(Seq<char>, Seq<char>)>>) -> Result<
    Seq<char>,
    FetchError,
> {
    match pairs {
        Some(list) => match first_named(list, "id"@) {
            Some(id) => Ok(id),
            None => Err(FetchError::FetchFailed),
        },
        None => Err(FetchError::FetchFailed),
    }
}

/// Takes the `id` of the picture out of the query of its address.
pub fn picture_id_from(pairs: &Option<Vec<(String, String)>>) -> (id: Result<String, FetchError>)
    ensures
        match id {
            Ok(text) => picture_id_in(found_pairs(*pairs)) matches Ok(held) && held == text@,
            Err(error) => picture_id_in(found_pairs(*pairs)) matches Err(refusal) && refusal
                == error,
        },
{
    match pairs {
        Some(list) => match find_named(list, "id") {
            Some(id) => Ok(id),
            None => Err(FetchError::FetchFailed),
        },
        None => Err(FetchError::FetchFailed),
    }
}

/// The `id` of the picture of a profile page, from the `src` of the page's
/// images: that of the first image counts.
pub open spec fn picture_id_of(sources: Option<Seq<Option<Seq<char>>>>) -> Result<
    Seq<char>,
    FetchError,
> {
    match first_value(sources) {
        Some(source) => picture_id_in(parsed_query(picture_address(source))),
        None => Err(FetchError::FetchFailed),
    }
}

/// Reads the `id` of the picture from the profile page.
pub fn picture_id(document: &str) -> (id: Result<String, FetchError>)
    ensures
        match id {
            Ok(text) => picture_id_of(selected_attribute(document@, "img"@, "src"@)) matches Ok(
                held,
            ) && held == text@,
            Err(error) => picture_id_of(
                selected_attribute(document@, "img"@, "src"@),
            ) matches Err(refusal) && refusal == error,
        },
{
    let sources = select_attribute(document, "img", "src");
    let source = match &sources {
        Some(values) => {
            if values.len() > 0 {
                assert(values_view(*values)[0] == match values@[0] {
                    Some(text) => Some(text@),
                    None => None,
                });
                match &values[0] {
                    Some(text) => text,
                    None => return Err(FetchError::FetchFailed),
                }
            } else {
                return Err(FetchError::FetchFailed);
            }
        },
        None => return Err(FetchError::FetchFailed),
    };
    picture_id_from(&query_pairs(address_of_picture(source.as_str()).as_str()))
}

/// The rewriting that puts the `id` of a picture into the path of the
/// picture's page.
pub open spec fn picture_path(id: Seq<char>) -> Seq<char> {
    replaced(APIPaths::ProfileImage.path_text(), "$imgid$"@, id)
}

/// The request for the picture of a user: it goes to the host that the
/// credential names, with the cookie that the credential holds.
pub fn fetch_image(credential: &AuthToken, id: &str) -> (request: UpstreamRequest)
    ensures
        request_is(
            request,
            Method::Get,
            credential.host@ + picture_path(id@),
            Some(credential.cookie@),
            None,
        ),
{
    let mut rules: Vec<ReplaceString> = Vec::new();
    rules.push(ReplaceString { match_string: "$imgid$".to_owned(), replacement: id.to_owned() });
    assert(rules@.drop_first() == Seq::<ReplaceString>::empty());
    assert(rewritten(APIPaths::ProfileImage.path_text(), rules@) == rewritten(
        picture_path(id@),
        rules@.drop_first(),
    ));
    let path = APIPaths::ProfileImage.replace(rules);
    let mut headers: Vec<crate::http::HeaderSetting> = Vec::new();
    headers.push(create_auth_header(credential.cookie.as_str()));
    UpstreamRequest {
        method: Method::Get,
        url: combine_path(credential.host.as_str(), path.as_str()),
        headers,
        body: None,
    }
}

/// The picture as it is given out: a data address of a PNG image in base
/// 64. A picture that is too long to be encoded gives none.
pub fn get_image(picture: &[u8]) -> (data: Option<String>)
    ensures
        match data {
            Some(text) => picture@.len() <= BASE64_INPUT_MAX && text@ == BASE64_IMAGE_HEAD@
                + base64_text(picture@),
            None => picture@.len() > BASE64_INPUT_MAX,
        },
{
    if picture.len() > BASE64_INPUT_MAX {
        return None;
    }
    let mut data = chars_of(BASE64_IMAGE_HEAD);
    append_chars(&mut data, &chars_of(buffer_to_base64(picture).as_str()));
    Some(string_of(&data))
}

/// The answer to a request for the profile: its fields and its picture.
pub fn respond(data: Vec<UserDataValues>, picture: String) -> (answer: UserData)
    ensures
        answer.message@ == "Get user profile successful"@,
        answer.data.data == data,
        answer.data.profileImg == picture,
{
    UserData {
        message: "Get user profile successful".to_owned(),
        data: UserCollect { data, profileImg: picture },
    }
}

} // verus!
