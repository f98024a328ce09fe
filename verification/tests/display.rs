use darwin_slot::config::SlotConfig;
use darwin_slot::display::paint;
use darwin_slot::display::paint_row;
use darwin_slot::display::row_cells;
use darwin_slot::display::slot_label;
use darwin_slot::display::slot_row;
use darwin_slot::display::status_rows;
use darwin_slot::display::Cell;
use darwin_slot::display::SlotRow;
use darwin_slot::display::Tone;
use darwin_slot::git::GitStatus;

fn slot(name: &str, slot_type: &str) -> SlotConfig {
    SlotConfig { name: name.to_string(), path: format!("/slots/{}", name), slot_type: slot_type.to_string() }
}

fn status(branch: &str, modified: usize, staged: usize, untracked: usize) -> GitStatus {
    GitStatus { branch: branch.to_string(), modified, untracked, staged }
}

fn cell(text: &str, tone: Tone) -> Cell {
    Cell { text: text.to_string(), tone }
}

#[test]
fn cells_of_available_slot() {
    let cells = row_cells(&slot("local-1", "local"), &Some(status("develop", 0, 0, 0)));
    assert_eq!(cells.name, "local-1");
    assert_eq!(cells.slot_type, "local");
    assert_eq!(cells.branch, cell("develop", Tone::Plain));
    assert_eq!(cells.git_status, cell("clean", Tone::Green));
    assert_eq!(cells.availability, cell("libre", Tone::Green));
}

#[test]
fn cells_of_occupied_slot() {
    let cells = row_cells(&slot("proto-2", "proto"), &Some(status("feature-x", 2, 0, 1)));
    assert_eq!(cells.branch, cell("feature-x", Tone::Plain));
    assert_eq!(cells.git_status, cell("2 modified, 1 untracked", Tone::Yellow));
    assert_eq!(cells.availability, cell("occupé", Tone::Red));
    let clean = row_cells(&slot("proto-2", "proto"), &Some(status("feature-x", 0, 0, 0)));
    assert_eq!(clean.git_status, cell("clean", Tone::Green));
    assert_eq!(clean.availability, cell("occupé", Tone::Red));
}

#[test]
fn cells_of_unreachable_slot() {
    let cells = row_cells(&slot("local-3", "local"), &None);
    assert_eq!(cells.name, "local-3");
    assert_eq!(cells.slot_type, "local");
    assert_eq!(cells.branch, cell("—", Tone::Dimmed));
    assert_eq!(cells.git_status, cell("—", Tone::Dimmed));
    assert_eq!(cells.availability, cell("introuvable", Tone::Red));
}

#[test]
fn paint_puts_escape_sequences_around_the_text() {
    colored::control::set_override(true);
    assert_eq!(paint(&cell("libre", Tone::Green)), "\u{1b}[32mlibre\u{1b}[0m");
    assert_eq!(paint(&cell("occupé", Tone::Red)), "\u{1b}[31moccupé\u{1b}[0m");
    assert_eq!(paint(&cell("1 staged", Tone::Yellow)), "\u{1b}[33m1 staged\u{1b}[0m");
    assert_eq!(paint(&cell("—", Tone::Dimmed)), "\u{1b}[2m—\u{1b}[0m");
    assert_eq!(paint(&cell("develop", Tone::Plain)), "develop");
}

#[test]
fn painted_row_keeps_name_type_and_branch() {
    colored::control::set_override(true);
    let row = paint_row(row_cells(&slot("local-1", "local"), &Some(status("develop", 0, 0, 0))));
    assert_eq!(
        row,
        SlotRow {
            name: "local-1".to_string(),
            slot_type: "local".to_string(),
            branch: "develop".to_string(),
            git_status: "\u{1b}[32mclean\u{1b}[0m".to_string(),
            availability: "\u{1b}[32mlibre\u{1b}[0m".to_string(),
        }
    );
}

#[test]
fn status_rows_follow_the_registry() {
    colored::control::set_override(true);
    let slots = vec![slot("a", "local"), slot("b", "proto"), slot("c", "proto")];
    let probes = vec![Some(status("develop", 0, 0, 0)), Some(status("topic", 0, 3, 0)), None];
    let rows = status_rows(&slots, &probes);
    assert_eq!(rows.len(), 3);
    assert_eq!(rows[0].name, "a");
    assert_eq!(rows[1].name, "b");
    assert_eq!(rows[1].slot_type, "proto");
    assert_eq!(rows[1].branch, "topic");
    assert_eq!(rows[1].git_status, "\u{1b}[33m3 staged\u{1b}[0m");
    assert_eq!(rows[1].availability, "\u{1b}[31moccupé\u{1b}[0m");
    assert_eq!(rows[2].name, "c");
    assert_eq!(rows[2].branch, "\u{1b}[2m—\u{1b}[0m");
    assert_eq!(rows[2].git_status, "\u{1b}[2m—\u{1b}[0m");
    assert_eq!(rows[2].availability, "\u{1b}[31mintrouvable\u{1b}[0m");
    assert_eq!(status_rows(&vec![], &vec![]), vec![]);
}

#[test]
fn slot_label_names_type_and_branch() {
    assert_eq!(
        slot_label(&slot("local-2", "local"), &Some(status("feature-x", 1, 0, 0))),
        "local-2 (local) — feature-x"
    );
    assert_eq!(slot_label(&slot("proto-1", "proto"), &Some(status("", 0, 0, 0))), "proto-1 (proto) — ");
    assert_eq!(slot_label(&slot("proto-1", "proto"), &None), "proto-1 (proto) — introuvable");
}

#[test]
fn slot_row_paints_all_but_name_type_and_branch() {
    colored::control::set_override(true);
    let row = slot_row(&slot("proto-2", "proto"), &Some(status("feature-x", 0, 1, 2)));
    assert_eq!(row.name, "proto-2");
    assert_eq!(row.slot_type, "proto");
    assert_eq!(row.branch, "feature-x");
    assert_eq!(row.git_status, "\u{1b}[33m1 staged, 2 untracked\u{1b}[0m");
    assert_eq!(row.availability, "\u{1b}[31moccupé\u{1b}[0m");
    let missing = slot_row(&slot("proto-3", "proto"), &None);
    assert_eq!(missing.branch, "\u{1b}[2m—\u{1b}[0m");
    assert!(missing.availability.contains("introuvable"));
}
