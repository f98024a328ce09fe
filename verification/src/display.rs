//! What the overview shows of each slot: the text of every cell, the tone
//! it is painted in, and the painted row.

use crate::config::SlotConfig;
use crate::git::availability;
use crate::git::availability_of;
use crate::git::lemma_status_text_printable;
use crate::git::probe_view;
use crate::git::Availability;
use crate::git::GitStatus;
use crate::git::StatusView;
use crate::text::texts_of;
use colored::Colorize;
use tabled::builder::Builder;
use vstd::prelude::*;
use vstd::string::StringExecFns;

verus! {

/// The tone in which a cell is painted.
#[derive(Clone, Copy, Debug, PartialEq, Eq, Structural)]
pub enum Tone {
    Plain,
    Green,
    Red,
    Yellow,
    Dimmed,
}

/// A cell before it is painted.
#[derive(Clone, Debug, PartialEq, Eq)]
pub struct Cell {
    pub text: String,
    pub tone: Tone,
}

/// The content of a [`Cell`].
pub struct CellView {
    pub text: Seq<char>,
    pub tone: Tone,
}

impl View for Cell {
    type V = CellView;

    open spec fn view(&self) -> CellView {
        CellView { text: self.text@, tone: self.tone }
    }
}

/// The cells of one slot's row, before they are painted.
#[derive(Clone, Debug, PartialEq, Eq)]
pub struct RowCells {
    pub name: String,
    pub slot_type: String,
    pub branch: Cell,
    pub git_status: Cell,
    pub availability: Cell,
}

/// One slot's row as it is shown.
#[derive(Clone, Debug, PartialEq, Eq)]
pub struct SlotRow {
    pub name: String,
    pub slot_type: String,
    pub branch: String,
    pub git_status: String,
    pub availability: String,
}

/// The branch of a slot that was reached, as it is; a dimmed dash for one
/// that was not.
pub open spec fn branch_cell(probe: Option<StatusView>) -> CellView {
    match probe {
        Some(status) => CellView { text: status.branch, tone: Tone::Plain },
        None => CellView { text: "—"@, tone: Tone::Dimmed },
    }
}

/// `clean` in green for a clean slot, the outstanding changes in yellow for
/// another, a dimmed dash for one that was not reached.
pub open spec fn git_cell(probe: Option<StatusView>) -> CellView {
    match probe {
        Some(status) => if status.is_clean() {
            CellView { text: "clean"@, tone: Tone::Green }
        } else {
            CellView { text: status.status_text(), tone: Tone::Yellow }
        },
        None => CellView { text: "—"@, tone: Tone::Dimmed },
    }
}

/// The verdict in words: green for an available slot, red for the others.
pub open spec fn availability_cell(probe: Option<StatusView>) -> CellView {
    match availability_of(probe) {
        Availability::Available => CellView { text: "libre"@, tone: Tone::Green },
        Availability::Occupied => CellView { text: "occupé"@, tone: Tone::Red },
        Availability::Unreachable => CellView { text: "introuvable"@, tone: Tone::Red },
    }
}

/// Decides what each cell of a slot's row says, and in which tone.
pub fn row_cells(slot: &SlotConfig, probe: &Option<GitStatus>) -> (cells: RowCells)
    ensures
        cells.name@ == slot.name@,
        cells.slot_type@ == slot.slot_type@,
        cells.branch@ == branch_cell(probe_view(*probe)),
        cells.git_status@ == git_cell(probe_view(*probe)),
        cells.availability@ == availability_cell(probe_view(*probe)),
{
    let availability = match availability(probe) {
        Availability::Available => Cell { text: "libre".to_owned(), tone: Tone::Green },
        Availability::Occupied => Cell { text: "occupé".to_owned(), tone: Tone::Red },
        Availability::Unreachable => Cell { text: "introuvable".to_owned(), tone: Tone::Red },
    };
    let (branch, git_status) = match probe {
        Some(status) => {
            let git_status = if status.is_clean() {
                Cell { text: "clean".to_owned(), tone: Tone::Green }
            } else {
                Cell { text: status.status_text(), tone: Tone::Yellow }
            };
            (Cell { text: status.branch.clone(), tone: Tone::Plain }, git_status)
        },
        None => (
            Cell { text: "—".to_owned(), tone: Tone::Dimmed },
            Cell { text: "—".to_owned(), tone: Tone::Dimmed },
        ),
    };
    RowCells {
        name: slot.name.clone(),
        slot_type: slot.slot_type.clone(),
        branch,
        git_status,
        availability,
    }
}

/// The character that starts a terminal escape sequence.
pub const ESCAPE: char = '\u{1b}';

/// The escape sequence that starts a text painted in `tone`.
pub open spec fn tone_sequence(tone: Tone) -> Seq<char> {
    match tone {
        Tone::Plain => Seq::empty(),
        Tone::Green => "\u{1b}[32m"@,
        Tone::Red => "\u{1b}[31m"@,
        Tone::Yellow => "\u{1b}[33m"@,
        Tone::Dimmed => "\u{1b}[2m"@,
    }
}

/// The escape sequence that ends a painted text.
pub open spec fn reset_sequence() -> Seq<char> {
    "\u{1b}[0m"@
}

/// `painted` is `text` in `tone`: the text as it is, or, for a tone other
/// than plain, the text between the tone's sequence and the reset. Which of
/// the two depends on the terminal and the environment.
pub open spec fn painted_in(painted: Seq<char>, text: Seq<char>, tone: Tone) -> bool {
    painted == text || (tone != Tone::Plain && painted == tone_sequence(tone) + text
        + reset_sequence())
}

/// What painting promises of a text without escape sequences.
pub open spec fn painted_from(painted: Seq<char>, text: Seq<char>, tone: Tone) -> bool {
    !text.contains(ESCAPE) ==> painted_in(painted, text, tone)
}

/// `Colorize::green` on a string slice, then `to_string`: a text without
/// escape sequences comes out as it is where colours are not in use, and
/// between the sequence for green and the reset where they are.
#[verifier::external_body]
fn paint_green(text: &str) -> (painted: String)
    ensures
        painted_from(painted@, text@, Tone::Green),
{
    text.green().to_string()
}

/// `Colorize::red` on a string slice, then `to_string`: a text without
/// escape sequences comes out as it is where colours are not in use, and
/// between the sequence for red and the reset where they are.
#[verifier::external_body]
fn paint_red(text: &str) -> (painted: String)
    ensures
        painted_from(painted@, text@, Tone::Red),
{
    text.red().to_string()
}

/// `Colorize::yellow` on a string slice, then `to_string`: a text without
/// escape sequences comes out as it is where colours are not in use, and
/// between the sequence for yellow and the reset where they are.
#[verifier::external_body]
fn paint_yellow(text: &str) -> (painted: String)
    ensures
        painted_from(painted@, text@, Tone::Yellow),
{
    text.yellow().to_string()
}

/// `Colorize::dimmed` on a string slice, then `to_string`: a text without
/// escape sequences comes out as it is where colours are not in use, and
/// between the sequence for the dimmed style and the reset where they are.
#[verifier::external_body]
fn paint_dimmed(text: &str) -> (painted: String)
    ensures
        painted_from(painted@, text@, Tone::Dimmed),
{
    text.dimmed().to_string()
}

/// Paints a cell in its tone. A plain cell comes out as it is.
pub fn paint(cell: &Cell) -> (painted: String)
    ensures
        cell.tone == Tone::Plain ==> painted@ == cell.text@,
        painted_from(painted@, cell.text@, cell.tone),
{
    match cell.tone {
        Tone::Plain => cell.text.clone(),
        Tone::Green => paint_green(cell.text.as_str()),
        Tone::Red => paint_red(cell.text.as_str()),
        Tone::Yellow => paint_yellow(cell.text.as_str()),
        Tone::Dimmed => paint_dimmed(cell.text.as_str()),
    }
}

/// `painted` is what painting makes of `cell`.
pub open spec fn is_painted(painted: Seq<char>, cell: CellView) -> bool {
    painted_in(painted, cell.text, cell.tone)
}

/// `row` is what painting makes of the cells of `slot` and `probe`: name and
/// type as they are, and each other cell painted in its tone, so that the
/// branch of a slot that was reached is as it is.
pub open spec fn is_row_of(row: SlotRow, slot: SlotConfig, probe: Option<StatusView>) -> bool {
    &&& row.name@ == slot.name@
    &&& row.slot_type@ == slot.slot_type@
    &&& probe is Some ==> row.branch@ == probe->0.branch
    &&& probe is None ==> is_painted(row.branch@, branch_cell(probe))
    &&& is_painted(row.git_status@, git_cell(probe))
    &&& is_painted(row.availability@, availability_cell(probe))
}

/// The words and status texts of the overview hold no escape sequence, so
/// painting leaves them readable.
pub proof fn lemma_cells_lack_escape(probe: Option<StatusView>)
    ensures
        probe is None ==> !branch_cell(probe).text.contains(ESCAPE),
        !git_cell(probe).text.contains(ESCAPE),
        !availability_cell(probe).text.contains(ESCAPE),
{
    reveal_strlit("—");
    reveal_strlit("clean");
    reveal_strlit("libre");
    reveal_strlit("occupé");
    reveal_strlit("introuvable");
    if probe is Some {
        lemma_status_text_printable(probe->0);
    }
}

/// Paints the cells of a row.
pub fn paint_row(cells: RowCells) -> (row: SlotRow)
    ensures
        row.name@ == cells.name@,
        row.slot_type@ == cells.slot_type@,
        cells.branch.tone == Tone::Plain ==> row.branch@ == cells.branch.text@,
        painted_from(row.branch@, cells.branch.text@, cells.branch.tone),
        painted_from(row.git_status@, cells.git_status.text@, cells.git_status.tone),
        painted_from(row.availability@, cells.availability.text@, cells.availability.tone),
{
    let branch = paint(&cells.branch);
    let git_status = paint(&cells.git_status);
    let availability = paint(&cells.availability);
    SlotRow { name: cells.name, slot_type: cells.slot_type, branch, git_status, availability }
}

/// The painted row of a slot.
pub fn slot_row(slot: &SlotConfig, probe: &Option<GitStatus>) -> (row: SlotRow)
    ensures
        is_row_of(row, *slot, probe_view(*probe)),
{
    proof {
        lemma_cells_lack_escape(probe_view(*probe));
    }
    paint_row(row_cells(slot, probe))
}

/// The rows of the overview: one for each slot, in order, from the probe
/// result at the same position.
pub fn status_rows(slots: &Vec<SlotConfig>, probes: &Vec<Option<GitStatus>>) -> (rows: Vec<
    SlotRow,
>)
    requires
        probes@.len() == slots@.len(),
    ensures
        rows@.len() == slots@.len(),
        forall|i: int|
            0 <= i < rows@.len() ==> is_row_of(
                #[trigger] rows@[i],
                slots@[i],
                probe_view(probes@[i]),
            ),
{
    let mut rows: Vec<SlotRow> = Vec::new();
    let mut i: usize = 0;
    while i < slots.len()
        invariant
            i <= slots.len(),
            probes@.len() == slots@.len(),
            rows@.len() == i,
            forall|k: int|
                0 <= k < i ==> is_row_of(#[trigger] rows@[k], slots@[k], probe_view(probes@[k])),
        decreases slots.len() - i,
    {
        let row = slot_row(&slots[i], &probes[i]);
        rows.push(row);
        i += 1;
    }
    rows
}

/// The headings of the overview's columns.
pub open spec fn headings() -> Seq<Seq<char>> {
    seq!["Slot"@, "Type"@, "Branche"@, "Git"@, "Dispo"@]
}

/// The cells of a row, in the order of the columns.
pub open spec fn record_of(row: SlotRow) -> Seq<Seq<char>> {
    seq![row.name@, row.slot_type@, row.branch@, row.git_status@, row.availability@]
}

/// The records of the overview: the headings, then one record for each row.
pub open spec fn records_of(rows: Seq<SlotRow>) -> Seq<Seq<Seq<char>>> {
    seq![headings()] + rows.map_values(|row: SlotRow| record_of(row))
}

/// The text of every cell of `records`.
pub open spec fn records_view(records: Seq<Vec<String>>) -> Seq<Seq<Seq<char>>> {
    records.map_values(|record: Vec<String>| texts_of(record@))
}

/// Lays the rows out as records, under the headings.
pub fn table_records(rows: &Vec<SlotRow>) -> (records: Vec<Vec<String>>)
    ensures
        records_view(records@) == records_of(rows@),
{
    let mut head: Vec<String> = Vec::new();
    head.push("Slot".to_owned());
    head.push("Type".to_owned());
    head.push("Branche".to_owned());
    head.push("Git".to_owned());
    head.push("Dispo".to_owned());
    assert(texts_of(head@) =~= headings());
    let mut records: Vec<Vec<String>> = Vec::new();
    records.push(head);
    let mut i: usize = 0;
    assert(records_view(records@) =~= records_of(rows@.take(0)));
    while i < rows.len()
        invariant
            i <= rows.len(),
            records_view(records@) == records_of(rows@.take(i as int)),
        decreases rows.len() - i,
    {
        let row = &rows[i];
        let mut record: Vec<String> = Vec::new();
        record.push(row.name.clone());
        record.push(row.slot_type.clone());
        record.push(row.branch.clone());
        record.push(row.git_status.clone());
        record.push(row.availability.clone());
        assert(texts_of(record@) =~= record_of(*row));
        let ghost before = records@;
        records.push(record);
        proof {
            assert(records@.drop_last() =~= before);
            assert(rows@.take(i + 1).drop_last() =~= rows@.take(i as int));
            assert(records_view(records@) =~= records_view(before).push(texts_of(record@)));
            assert(records_of(rows@.take(i + 1)) =~= records_of(rows@.take(i as int)).push(
                record_of(*row),
            ));
        }
        i += 1;
    }
    assert(rows@.take(rows.len() as int) =~= rows@);
    records
}

/// The text of the table that is drawn from `records`.
pub uninterp spec fn table_text(records: Seq<Seq<Seq<char>>>) -> Seq<char>;

/// `Builder::from` on the records, `Builder::build`, and `to_string` on the
/// table: the records drawn as a grid, the first of them as the heading.
/// The contract names the text.
#[verifier::external_body]
fn draw_table(records: Vec<Vec<String>>) -> (text: String)
    ensures
        text@ == table_text(records_view(records@)),
{
    Builder::from(records).build().to_string()
}

/// Draws the overview: a table of the rows under the headings.
pub fn status_table(rows: &Vec<SlotRow>) -> (text: String)
    ensures
        text@ == table_text(records_of(rows@)),
{
    draw_table(table_records(rows))
}

/// The label of a slot in a choice: its name, its type in brackets, and its
/// branch, or a word for a slot that was not reached.
pub open spec fn label_of(slot: SlotConfig, probe: Option<StatusView>) -> Seq<char> {
    slot.name@ + " ("@ + slot.slot_type@ + ") — "@ + match probe {
        Some(status) => status.branch,
        None => "introuvable"@,
    }
}

/// Writes the label under which a slot is offered in a choice.
pub fn slot_label(slot: &SlotConfig, probe: &Option<GitStatus>) -> (label: String)
    ensures
        label@ == label_of(*slot, probe_view(*probe)),
{
    let mut label = slot.name.clone();
    label.append(" (");
    label.append(slot.slot_type.as_str());
    label.append(") — ");
    match probe {
        Some(status) => {
            label.append(status.branch.as_str());
        },
        None => {
            label.append("introuvable");
        },
    }
    label
}

} // verus!
