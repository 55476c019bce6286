//! Building a result table out of styled cells.
//!
//! The tables themselves are `comfy_table`'s and `prettytable`'s. What
//! the functions of these crates do to a table is taken on trust: the
//! contracts of the private functions below say so and are not proved here.

use vstd::prelude::*;

verus! {

/// The colour of the text of a cell.
#[derive(Clone, Copy, Debug, PartialEq, Eq, Structural)]
pub enum Tint {
    Cyan,
    Yellow,
    Green,
    Red,
    Blue,
    Magenta,
    White,
}

/// One cell of a row of results: a text and its colour.
pub struct StyledCell {
    pub text: String,
    pub tint: Tint,
}

impl View for StyledCell {
    type V = (Seq<char>, Tint);

    open spec fn view(&self) -> (Seq<char>, Tint) {
        (self.text@, self.tint)
    }
}

/// What a row of cells holds: the text and the colour of each, in order.
pub open spec fn cells_view(cells: Seq<StyledCell>) -> Seq<(Seq<char>, Tint)> {
    cells.map_values(|cell: StyledCell| cell@)
}

/// What a column of texts holds: the characters of each, in order.
pub open spec fn texts_view(texts: Seq<String>) -> Seq<Seq<char>> {
    texts.map_values(|text: String| text@)
}

#[verifier::external_type_specification]
#[verifier::external_body]
pub struct ExTable(comfy_table::Table);

/// The header of a table: the content of each of its cells, in order,
/// and no cells where the table has no header.
pub uninterp spec fn table_header(table: comfy_table::Table) -> Seq<Seq<char>>;

/// The rows of a table below its header, in order: for each cell of a
/// row its content and the colour of its text.
pub uninterp spec fn table_rows(table: comfy_table::Table) -> Seq<Seq<(Seq<char>, Tint)>>;

/// `comfy_table::Table::new`: a table without a header and without rows.
#[verifier::external_body]
fn table_new() -> (table: comfy_table::Table)
    ensures
        table_header(table) == Seq::<Seq<char>>::empty(),
        table_rows(table) == Seq::<Seq<(Seq<char>, Tint)>>::empty(),
{
    comfy_table::Table::new()
}

/// `comfy_table::Table::set_content_arrangement` with
/// `ContentArrangement::Dynamic`: the table fits its columns to the width
/// at hand when it is drawn. Its header and rows stay as they are.
#[verifier::external_body]
fn table_arrange_dynamic(table: &mut comfy_table::Table)
    ensures
        table_header(*final(table)) == table_header(*old(table)),
        table_rows(*final(table)) == table_rows(*old(table)),
{
    table.set_content_arrangement(comfy_table::ContentArrangement::Dynamic);
}

/// `comfy_table::Table::load_preset` with `presets::UTF8_FULL`: the table
/// is drawn with box-drawing characters. Its header and rows stay as they are.
#[verifier::external_body]
fn table_load_full_borders(table: &mut comfy_table::Table)
    ensures
        table_header(*final(table)) == table_header(*old(table)),
        table_rows(*final(table)) == table_rows(*old(table)),
{
    table.load_preset(comfy_table::presets::UTF8_FULL);
}

/// `comfy_table::Table::set_header` with one bold cell
/// (`Cell::new`, `Cell::add_attribute`) for each of `titles`: they become
/// the header. The rows stay as they are.
#[verifier::external_body]
fn table_set_header(table: &mut comfy_table::Table, titles: &Vec<String>)
    ensures
        table_header(*final(table)) == texts_view(titles@),
        table_rows(*final(table)) == table_rows(*old(table)),
{
    table.set_header(titles.iter().map(|title| {
        comfy_table::Cell::new(title).add_attribute(comfy_table::Attribute::Bold)
    }));
}

/// `comfy_table::Table::add_row` with one cell (`Cell::new`, `Cell::fg`)
/// for each of `cells`, in its colour: the row comes last in the table.
/// The header and the rows before it stay as they are.
#[verifier::external_body]
fn table_add_row(table: &mut comfy_table::Table, cells: &Vec<StyledCell>)
    ensures
        table_header(*final(table)) == table_header(*old(table)),
        table_rows(*final(table)) == table_rows(*old(table)).push(cells_view(cells@)),
{
    table.add_row(cells.iter().map(|cell| {
        comfy_table::Cell::new(&cell.text).fg(match cell.tint {
            Tint::Cyan => comfy_table::Color::Cyan,
            Tint::Yellow => comfy_table::Color::Yellow,
            Tint::Green => comfy_table::Color::Green,
            Tint::Red => comfy_table::Color::Red,
            Tint::Blue => comfy_table::Color::Blue,
            Tint::Magenta => comfy_table::Color::Magenta,
            Tint::White => comfy_table::Color::White,
        })
    }));
}

/// What the rows of a table hold: for each row its cells, in order.
pub open spec fn rows_view(rows: Seq<Vec<StyledCell>>) -> Seq<Seq<(Seq<char>, Tint)>> {
    rows.map_values(|row: Vec<StyledCell>| cells_view(row@))
}

/// A table with box-drawing borders that fits its columns to the width
/// at hand, with `titles` in bold for its header and `rows` below it, in
/// order and each cell in its colour.
pub fn framed_table(titles: &Vec<String>, rows: &Vec<Vec<StyledCell>>) -> (table: comfy_table::Table)
    ensures
        table_header(table) == texts_view(titles@),
        table_rows(table) == rows_view(rows@),
{
    let mut table = table_new();
    table_arrange_dynamic(&mut table);
    table_load_full_borders(&mut table);
    table_set_header(&mut table, titles);
    let mut i: usize = 0;
    while i < rows.len()
        invariant
            i <= rows.len(),
            table_header(table) == texts_view(titles@),
            table_rows(table) == rows_view(rows@.take(i as int)),
        decreases rows.len() - i,
    {
        table_add_row(&mut table, &rows[i]);
        assert(rows_view(rows@.take(i + 1)) =~= rows_view(rows@.take(i as int)).push(
            cells_view(rows@[i as int]@),
        ));
        i = i + 1;
    }
    assert(rows@.take(rows.len() as int) =~= rows@);
    table
}

#[verifier::external_type_specification]
#[verifier::external_body]
pub struct ExListing(prettytable::Table);

/// The lines of a text, as `str::lines` gives them.
pub uninterp spec fn text_lines(text: Seq<char>) -> Seq<Seq<char>>;

/// The titles of a listing: the lines of each of its title cells, in
/// order, and no cells where the listing has no titles.
pub uninterp spec fn listing_titles(table: prettytable::Table) -> Seq<Seq<Seq<char>>>;

/// The rows of a listing below its titles, in order: for each cell of a
/// row its lines and the colour of its text.
pub uninterp spec fn listing_rows(table: prettytable::Table) -> Seq<Seq<(Seq<Seq<char>>, Tint)>>;

/// The lines of each of `texts`, in order.
pub open spec fn lines_of_texts(texts: Seq<Seq<char>>) -> Seq<Seq<Seq<char>>> {
    texts.map_values(|text: Seq<char>| text_lines(text))
}

/// The cells of a row with the lines of each text in place of the text.
pub open spec fn lines_of_cells(cells: Seq<(Seq<char>, Tint)>) -> Seq<(Seq<Seq<char>>, Tint)> {
    cells.map_values(|cell: (Seq<char>, Tint)| (text_lines(cell.0), cell.1))
}

/// The rows of a table with the lines of each text in place of the text.
pub open spec fn lines_of_rows(rows: Seq<Seq<(Seq<char>, Tint)>>) -> Seq<Seq<(Seq<Seq<char>>, Tint)>> {
    rows.map_values(|row: Seq<(Seq<char>, Tint)>| lines_of_cells(row))
}

/// `prettytable::Table::new`: a listing without titles and without rows.
#[verifier::external_body]
fn listing_new() -> (table: prettytable::Table)
    ensures
        listing_titles(table) == Seq::<Seq<Seq<char>>>::empty(),
        listing_rows(table) == Seq::<Seq<(Seq<Seq<char>>, Tint)>>::empty(),
{
    prettytable::Table::new()
}

/// `prettytable::Table::set_titles` with a row (`Row::new`) of one cell
/// (`Cell::new`) for each of `titles`: they become the titles. A cell
/// keeps its text as the lines that `str::lines` finds in it. The rows
/// stay as they are.
#[verifier::external_body]
fn listing_set_titles(table: &mut prettytable::Table, titles: &Vec<String>)
    ensures
        listing_titles(*final(table)) == titles@.map_values(|title: String| text_lines(title@)),
        listing_rows(*final(table)) == listing_rows(*old(table)),
{
    table.set_titles(
        prettytable::Row::new(titles.iter().map(|title| prettytable::Cell::new(title)).collect()),
    );
}

/// `prettytable::Table::add_row` with a row (`Row::new`) of one cell
/// (`Cell::new`, `Cell::with_style`) for each of `cells`, in its colour:
/// the row comes last in the listing. A cell keeps its text as the lines
/// that `str::lines` finds in it. The titles and the rows before stay as
/// they are.
#[verifier::external_body]
fn listing_add_row(table: &mut prettytable::Table, cells: &Vec<StyledCell>)
    ensures
        listing_titles(*final(table)) == listing_titles(*old(table)),
        listing_rows(*final(table)) == listing_rows(*old(table)).push(
            cells@.map_values(|cell: StyledCell| (text_lines(cell.text@), cell.tint)),
        ),
{
    table.add_row(prettytable::Row::new(cells.iter().map(|cell| {
        prettytable::Cell::new(&cell.text).with_style(prettytable::Attr::ForegroundColor(match cell.tint {
            Tint::Cyan => prettytable::color::CYAN,
            Tint::Yellow => prettytable::color::YELLOW,
            Tint::Green => prettytable::color::GREEN,
            Tint::Red => prettytable::color::RED,
            Tint::Blue => prettytable::color::BLUE,
            Tint::Magenta => prettytable::color::MAGENTA,
            Tint::White => prettytable::color::WHITE,
        }))
    }).collect()));
}

/// A listing with `titles` for its titles and no rows.
pub fn create_table(titles: &Vec<String>) -> (table: prettytable::Table)
    ensures
        listing_titles(table) == lines_of_texts(texts_view(titles@)),
        listing_rows(table) == Seq::<Seq<(Seq<Seq<char>>, Tint)>>::empty(),
{
    let mut table = listing_new();
    listing_set_titles(&mut table, titles);
    assert(titles@.map_values(|title: String| text_lines(title@)) =~= lines_of_texts(
        texts_view(titles@),
    ));
    table
}

/// A listing with `titles` for its titles and `rows` below them, in
/// order and each cell in its colour.
pub fn listing(titles: &Vec<String>, rows: &Vec<Vec<StyledCell>>) -> (table: prettytable::Table)
    ensures
        listing_titles(table) == lines_of_texts(texts_view(titles@)),
        listing_rows(table) == lines_of_rows(rows_view(rows@)),
{
    let mut table = create_table(titles);
    let mut i: usize = 0;
    assert(lines_of_rows(rows_view(rows@.take(0))) =~= Seq::<Seq<(Seq<Seq<char>>, Tint)>>::empty());
    while i < rows.len()
        invariant
            i <= rows.len(),
            listing_titles(table) == lines_of_texts(texts_view(titles@)),
            listing_rows(table) == lines_of_rows(rows_view(rows@.take(i as int))),
        decreases rows.len() - i,
    {
        listing_add_row(&mut table, &rows[i]);
        proof {
            let row = rows@[i as int];
            assert(row@.map_values(|cell: StyledCell| (text_lines(cell.text@), cell.tint))
                =~= lines_of_cells(cells_view(row@)));
            assert(lines_of_rows(rows_view(rows@.take(i + 1))) =~= lines_of_rows(
                rows_view(rows@.take(i as int)),
            ).push(lines_of_cells(cells_view(row@))));
        }
        i = i + 1;
    }
    assert(rows@.take(rows.len() as int) =~= rows@);
    table
}

} // verus!
