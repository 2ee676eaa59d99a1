//! What the broker reads from a document of the portal: the text and the
//! attributes of the elements that a CSS selector picks.

use vstd::prelude::*;

verus! {

/// For each element that `scraper` selects in the document, in the order in
/// which it yields them, the texts of the text nodes below that element;
/// nothing where `scraper` cannot read the selector.
pub uninterp spec fn selected_texts(document: Seq<char>, selector: Seq<char>) -> Option<
    Seq<Seq<Seq<char>>>,
>;

/// For each element that `scraper` selects in the document, in the order in
/// which it yields them, the value of the attribute of that name, where the
/// element has it; nothing where `scraper` cannot read the selector.
pub uninterp spec fn selected_attribute(
    document: Seq<char>,
    selector: Seq<char>,
    attribute: Seq<char>,
) -> Option<Seq<Option<Seq<char>>>>;

/// The texts of one element, as sequences of characters.
pub open spec fn element_view(texts: Vec<String>) -> Seq<Seq<char>> {
    texts@.map_values(|text: String| text@)
}

/// The texts of a list of elements.
pub open spec fn elements_view(elements: Vec<Vec<String>>) -> Seq<Seq<Seq<char>>> {
    elements@.map_values(|texts: Vec<String>| element_view(texts))
}

/// The values of an attribute over a list of elements.
pub open spec fn values_view(values: Vec<Option<String>>) -> Seq<Option<Seq<char>>> {
    values@.map_values(
        |value: Option<String>|
            match value {
                Some(text) => Some(text@),
                None => None,
            },
    )
}

/// What was selected, where the selector could be read.
pub open spec fn found_texts(found: Option<Vec<Vec<String>>>) -> Option<Seq<Seq<Seq<char>>>> {
    match found {
        Some(elements) => Some(elements_view(elements)),
        None => None,
    }
}

/// What was selected, where the selector could be read.
pub open spec fn found_values(found: Option<Vec<Option<String>>>) -> Option<
    Seq<Option<Seq<char>>>,
> {
    match found {
        Some(values) => Some(values_view(values)),
        None => None,
    }
}

/// `scraper::Html::parse_document`, `scraper::Selector::parse`,
/// `scraper::Html::select` and `scraper::ElementRef::text`: the document is
/// parsed as HTML, and for each element that the selector picks the texts
/// of its text nodes are collected. The same document and selector give the
/// same lists.
#[verifier::external_body]
pub(crate) fn select_texts(document: &str, selector: &str) -> (found: Option<Vec<Vec<String>>>)
    ensures
        found_texts(found) == selected_texts(document@, selector@),
{
    let selector = scraper::Selector::parse(selector).ok()?;
    let html = scraper::Html::parse_document(document);
    Some(html.select(&selector).map(|element| element.text().map(str::to_owned).collect()).collect())
}

/// `scraper::Html::parse_document`, `scraper::Selector::parse`,
/// `scraper::Html::select` and `scraper::node::Element::attr`: the document
/// is parsed as HTML, and for each element that the selector picks the
/// value of the attribute is looked up. The same document, selector and
/// attribute give the same list.
#[verifier::external_body]
pub(crate) fn select_attribute(document: &str, selector: &str, attribute: &str) -> (found: Option<
    Vec<Option<String>>,
>)
    ensures
        found_values(found) == selected_attribute(document@, selector@, attribute@),
{
    let selector = scraper::Selector::parse(selector).ok()?;
    let html = scraper::Html::parse_document(document);
    Some(html.select(&selector).map(|element| element.value().attr(attribute).map(str::to_owned)).collect())
}

/// The value that the first selected element has for an attribute.
pub open spec fn first_value(found: Option<Seq<Option<Seq<char>>>>) -> Option<Seq<char>> {
    match found {
        Some(values) => if values.len() > 0 {
            values[0]
        } else {
            None
        },
        None => None,
    }
}

/// Whether anything was selected.
pub open spec fn any_selected(found: Option<Seq<Seq<Seq<char>>>>) -> bool {
    match found {
        Some(elements) => elements.len() > 0,
        None => false,
    }
}

/// One element of a table that was read: the texts of the text nodes below
/// it, the value of the attribute that was asked for, and whether it has
/// the class that was asked for.
#[derive(Debug, Clone)]
pub struct Cell {
    pub texts: Vec<String>,
    pub attribute: Option<String>,
    pub marked: bool,
}

pub struct CellView {
    pub texts: Seq<Seq<char>>,
    pub attribute: Option<Seq<char>>,
    pub marked: bool,
}

impl View for Cell {
    type V = CellView;

    open spec fn view(&self) -> CellView {
        CellView {
            texts: element_view(self.texts),
            attribute: match self.attribute {
                Some(value) => Some(value@),
                None => None,
            },
            marked: self.marked,
        }
    }
}

impl Cell {
    /// A cell that holds the same as this one.
    pub fn clone_cell(&self) -> (copy: Cell)
        ensures
            copy@ == self@,
    {
        let ghost wanted = element_view(self.texts);
        let mut texts: Vec<String> = Vec::new();
        let mut i: usize = 0;
        assert(element_view(texts) == wanted.take(0));
        while i < self.texts.len()
            invariant
                i <= self.texts.len(),
                wanted == element_view(self.texts),
                element_view(texts) == wanted.take(i as int),
            decreases self.texts.len() - i,
        {
            let ghost shown = element_view(texts);
            let text = self.texts[i].clone();
            texts.push(text);
            assert(element_view(texts) == shown.push(text@));
            assert(wanted.take(i + 1) == wanted.take(i as int).push(wanted[i as int]));
            i += 1;
        }
        assert(wanted.take(wanted.len() as int) == wanted);
        let attribute = match &self.attribute {
            Some(value) => Some(value.clone()),
            None => None,
        };
        Cell { texts, attribute, marked: self.marked }
    }
}

/// The cells of one row.
pub open spec fn row_view(row: Vec<Cell>) -> Seq<CellView> {
    row@.map_values(|cell: Cell| cell@)
}

/// The rows of one table.
pub open spec fn table_view(table: Vec<Vec<Cell>>) -> Seq<Seq<CellView>> {
    table@.map_values(|row: Vec<Cell>| row_view(row))
}

/// The tables of a document.
pub open spec fn tables_view(tables: Vec<Vec<Vec<Cell>>>) -> Seq<Seq<Seq<CellView>>> {
    tables@.map_values(|table: Vec<Vec<Cell>>| table_view(table))
}

/// The tables that were read, where the selectors could be read.
pub open spec fn found_tables(found: Option<Vec<Vec<Vec<Cell>>>>) -> Option<
    Seq<Seq<Seq<CellView>>>,
> {
    match found {
        Some(tables) => Some(tables_view(tables)),
        None => None,
    }
}

/// What `scraper` reads from a document in three steps: for each element
/// that `outer` selects in the document, for each element that `middle`
/// selects below that one, the elements that `inner` selects below that
/// one, each with its texts, with its value for `attribute`, and with
/// whether it has `class`, whatever the case of the ASCII letters. Nothing
/// where `scraper` cannot read a selector.
pub uninterp spec fn selected_cells(
    document: Seq<char>,
    outer: Seq<char>,
    middle: Seq<char>,
    inner: Seq<char>,
    attribute: Seq<char>,
    class: Seq<char>,
) -> Option<Seq<Seq<Seq<CellView>>>>;

/// For each element that `scraper` selects in the document, in the order in
/// which it yields them, what `scraper` writes the element's content as.
pub uninterp spec fn selected_inner_html(document: Seq<char>, selector: Seq<char>) -> Option<
    Seq<Seq<char>>,
>;

/// What `scraper` writes a document as after it has read it.
pub uninterp spec fn rewritten_html(document: Seq<char>) -> Seq<char>;

/// The texts that were selected, where the selector could be read.
pub open spec fn found_list(found: Option<Vec<String>>) -> Option<Seq<Seq<char>>> {
    match found {
        Some(list) => Some(element_view(list)),
        None => None,
    }
}

/// `scraper::Html::parse_document`, `scraper::Selector::parse`,
/// `scraper::Html::select`, `scraper::ElementRef::select`, and for each
/// element at the third step `scraper::ElementRef::text`,
/// `scraper::node::Element::attr` and `scraper::node::Element::has_class`.
/// The same arguments give the same tables.
#[verifier::external_body]
pub(crate) fn select_cells(
    document: &str,
    outer: &str,
    middle: &str,
    inner: &str,
    attribute: &str,
    class: &str,
) -> (found: Option<Vec<Vec<Vec<Cell>>>>)
    ensures
        found_tables(found) == selected_cells(
            document@,
            outer@,
            middle@,
            inner@,
            attribute@,
            class@,
        ),
{
    let outer = scraper::Selector::parse(outer).ok()?;
    let middle = scraper::Selector::parse(middle).ok()?;
    let inner = scraper::Selector::parse(inner).ok()?;
    let cell = |e: scraper::ElementRef| Cell {
        texts: e.text().map(str::to_owned).collect(),
        attribute: e.value().attr(attribute).map(str::to_owned),
        marked: e.value().has_class(class, scraper::CaseSensitivity::AsciiCaseInsensitive),
    };
    let html = scraper::Html::parse_document(document);
    Some(html.select(&outer).map(|a| a.select(&middle).map(|b| b.select(&inner).map(cell).collect()).collect()).collect())
}

/// `scraper::Html::parse_document`, `scraper::Selector::parse`,
/// `scraper::Html::select` and `scraper::ElementRef::inner_html`. The same
/// document and selector give the same list.
#[verifier::external_body]
pub(crate) fn select_inner_html(document: &str, selector: &str) -> (found: Option<Vec<String>>)
    ensures
        found_list(found) == selected_inner_html(document@, selector@),
{
    let selector = scraper::Selector::parse(selector).ok()?;
    let html = scraper::Html::parse_document(document);
    Some(html.select(&selector).map(|element| element.inner_html()).collect())
}

/// `scraper::Html::parse_document` and `scraper::Html::html`: the document
/// as `scraper` writes it after it has read it.
#[verifier::external_body]
pub(crate) fn document_html(document: &str) -> (written: String)
    ensures
        written@ == rewritten_html(document@),
{
    scraper::Html::parse_document(document).html()
}

/// The texts of an element put together, the first one first.
pub open spec fn joined(texts: Seq<Seq<char>>) -> Seq<char>
    decreases texts.len(),
{
    if texts.len() == 0 {
        Seq::empty()
    } else {
        joined(texts.drop_last()) + texts.last()
    }
}

/// Puts the texts of an element together.
pub fn join_texts(texts: &Vec<String>) -> (whole: Vec<char>)
    ensures
        whole@ == joined(element_view(*texts)),
{
    let mut whole: Vec<char> = Vec::new();
    let mut i: usize = 0;
    let ghost all = element_view(*texts);
    assert(all.take(0) == Seq::<Seq<char>>::empty());
    while i < texts.len()
        invariant
            i <= texts.len(),
            all == element_view(*texts),
            whole@ == joined(all.take(i as int)),
        decreases texts.len() - i,
    {
        let part = crate::text::chars_of(texts[i].as_str());
        assert(all.take(i + 1).drop_last() == all.take(i as int));
        assert(all.take(i + 1).last() == texts@[i as int]@);
        crate::text::append_chars(&mut whole, &part);
        i += 1;
    }
    assert(all.take(texts@.len() as int) == all);
    whole
}

} // verus!
