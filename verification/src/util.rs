//! The table in which the candidates of a possible duplicate are shown.
//!
//! The rows are computed here; the `term_table` crate lays them out. The
//! text that it produces appears in contracts under the name
//! [`rendered_table`].

use vstd::prelude::*;
use crate::types::{DupeItem, DupeItemView};

verus! {

/// One row of a table: its cells, and whether a line is drawn above it.
#[derive(Clone, Debug, PartialEq, Eq)]
pub struct TableRow {
    pub cells: Vec<String>,
    pub has_separator: bool,
}

/// Mathematical form of [`TableRow`].
pub struct TableRowView {
    pub cells: Seq<Seq<char>>,
    pub has_separator: bool,
}

impl View for TableRow {
    type V = TableRowView;

    open spec fn view(&self) -> TableRowView {
        TableRowView { cells: self.cells.deep_view(), has_separator: self.has_separator }
    }
}

impl DeepView for TableRow {
    type V = TableRowView;

    open spec fn deep_view(&self) -> TableRowView {
        self@
    }
}

/// The text of a table with the given rows, as `term_table` renders it in
/// its default style.
pub uninterp spec fn rendered_table(rows: Seq<TableRowView>) -> Seq<char>;

/// `term_table::Table::render`, on a table made by `Table::new` to which the
/// rows were added in order by `Table::add_row`, each row made by `Row::new`
/// from its cells and given its `has_separator`. The contract gives the
/// rendered text its name and claims nothing else about it.
#[verifier::external_body]
fn render_table(rows: &Vec<TableRow>) -> (out: String)
    ensures
        out@ == rendered_table(rows.deep_view()),
{
    let mut table = term_table::Table::new();
    for row in rows.iter() {
        let mut table_row = term_table::row::Row::new(row.cells.iter());
        table_row.has_separator = row.has_separator;
        table.add_row(table_row);
    }
    table.render()
}

/// The headings: title, singer, album, quality, similarity score, link.
pub open spec fn header_row() -> TableRowView {
    TableRowView {
        cells: seq!["曲名"@, "歌手"@, "专辑"@, "音质"@, "撞车评分"@, "聆听"@],
        has_separator: true,
    }
}

/// The address under which a catalogued track can be listened to.
pub open spec fn listen_link(sid: Seq<char>) -> Seq<char> {
    "https://biu.moe/#/s"@ + sid
}

/// The row of one candidate, cell by cell under the headings.
pub open spec fn dupe_row(item: DupeItemView) -> TableRowView {
    TableRowView {
        cells: seq![
            item.title,
            item.singer,
            item.album,
            item.level.text_spec(),
            item.score,
            listen_link(item.sid),
        ],
        has_separator: true,
    }
}

/// The rows of the table of candidates: the headings, then one row for each
/// candidate in the order given, every row with a line above it.
pub open spec fn dupe_table(items: Seq<DupeItemView>) -> Seq<TableRowView> {
    Seq::new(
        items.len() + 1,
        |i: int|
            if i == 0 {
                header_row()
            } else {
                dupe_row(items[i - 1])
            },
    )
}

fn header() -> (row: TableRow)
    ensures
        row@ == header_row(),
{
    let mut cells: Vec<String> = Vec::new();
    cells.push(String::from_str("曲名"));
    cells.push(String::from_str("歌手"));
    cells.push(String::from_str("专辑"));
    cells.push(String::from_str("音质"));
    cells.push(String::from_str("撞车评分"));
    cells.push(String::from_str("聆听"));
    assert(cells.deep_view() =~= header_row().cells);
    TableRow { cells, has_separator: true }
}

fn row_of(item: &DupeItem) -> (row: TableRow)
    ensures
        row@ == dupe_row(item@),
{
    let mut link = String::from_str("https://biu.moe/#/s");
    link.append(item.sid.as_str());
    let mut cells: Vec<String> = Vec::new();
    cells.push(item.title.clone());
    cells.push(item.singer.clone());
    cells.push(item.album.clone());
    cells.push(item.level.to_string());
    cells.push(item.score.clone());
    cells.push(link);
    assert(cells.deep_view() =~= dupe_row(item@).cells);
    TableRow { cells, has_separator: true }
}

/// Computes the rows of the table of candidates.
pub fn dupe_rows(items: &Vec<DupeItem>) -> (rows: Vec<TableRow>)
    ensures
        rows@.len() == items@.len() + 1,
        rows.deep_view() == dupe_table(items.deep_view()),
{
    let mut rows: Vec<TableRow> = Vec::new();
    rows.push(header());
    let mut index: usize = 0;
    while index < items.len()
        invariant
            index <= items@.len(),
            rows@.len() == index + 1,
            rows@[0]@ == header_row(),
            forall|k: int| 1 <= k <= index ==> (#[trigger] rows@[k])@ == dupe_row(items@[k - 1]@),
        decreases items@.len() - index,
    {
        let row = row_of(&items[index]);
        rows.push(row);
        index = index + 1;
    }
    assert(rows.deep_view() =~= dupe_table(items.deep_view()));
    rows
}

/// The table of candidates as text, ready to be printed.
pub fn display_dupes(items: &Vec<DupeItem>) -> (out: String)
    ensures
        out@ == rendered_table(dupe_table(items.deep_view())),
{
    let rows = dupe_rows(items);
    render_table(&rows)
}

} // verus!
