use darwin_slot::porcelain::count_changes;
use darwin_slot::porcelain::line_counts;
use darwin_slot::porcelain::ChangeCounts;

fn counts(modified: usize, staged: usize, untracked: usize) -> ChangeCounts {
    ChangeCounts { modified, untracked, staged }
}

// The same count, written with the line iterator of the standard library.
fn reference_count(text: &str) -> ChangeCounts {
    let mut total = counts(0, 0, 0);
    for line in text.lines() {
        if line.len() < 2 {
            continue;
        }
        let index = line.as_bytes()[0];
        let worktree = line.as_bytes()[1];
        if line.starts_with("??") {
            total.untracked += 1;
        } else {
            if index != b' ' {
                total.staged += 1;
            }
            if worktree != b' ' {
                total.modified += 1;
            }
        }
    }
    total
}

#[test]
fn untracked_line_counts_once() {
    assert_eq!(line_counts(b"?? new.txt"), counts(0, 0, 1));
    assert_eq!(line_counts(b"??"), counts(0, 0, 1));
    assert_eq!(line_counts(b"??M"), counts(0, 0, 1));
}

#[test]
fn staged_and_modified_line_counts_both() {
    assert_eq!(line_counts(b"MM both.rs"), counts(1, 1, 0));
    assert_eq!(line_counts(b"AM"), counts(1, 1, 0));
    assert_eq!(line_counts(b"RD old -> new"), counts(1, 1, 0));
}

#[test]
fn blank_state_is_unchanged() {
    assert_eq!(line_counts(b" M worktree.rs"), counts(1, 0, 0));
    assert_eq!(line_counts(b"M  index.rs"), counts(0, 1, 0));
    assert_eq!(line_counts(b"A  added.rs"), counts(0, 1, 0));
    assert_eq!(line_counts(b" D gone.rs"), counts(1, 0, 0));
    assert_eq!(line_counts(b"  "), counts(0, 0, 0));
}

#[test]
fn single_question_mark_counts_as_a_change() {
    assert_eq!(line_counts(b"M? x"), counts(1, 1, 0));
    assert_eq!(line_counts(b"?M x"), counts(1, 1, 0));
    assert_eq!(line_counts(b" ? x"), counts(1, 0, 0));
    assert_eq!(line_counts(b"? "), counts(0, 1, 0));
    assert_eq!(count_changes(b"M? f\n?M g\n?? h\n"), counts(2, 2, 1));
}

#[test]
fn a_line_adds_its_counts_wherever_it_stands() {
    let before: &[u8] = b" M a\n?? b\n";
    let rest: &[u8] = b"A  c\nD  d";
    for line in [&b"MM x"[..], &b"?? y"[..], &b"M? z"[..], &b" M w"[..], &b"R"[..], &b""[..]] {
        let mut text = before.to_vec();
        text.extend_from_slice(line);
        text.push(b'\n');
        text.extend_from_slice(rest);
        let whole = count_changes(&text);
        let (b, l, r) = (count_changes(before), line_counts(line), count_changes(rest));
        assert_eq!(whole.modified, b.modified + l.modified + r.modified);
        assert_eq!(whole.staged, b.staged + l.staged + r.staged);
        assert_eq!(whole.untracked, b.untracked + l.untracked + r.untracked);
    }
}

#[test]
fn a_list_cut_after_a_newline_adds_up() {
    let text: &[u8] = b" M a\r\n?? b\nMM c\n\nA  d\n?M e";
    for cut in [0, 6, 11, 16, 17, 22] {
        let (head, rest) = text.split_at(cut);
        let (h, r, whole) = (count_changes(head), count_changes(rest), count_changes(text));
        assert_eq!(whole.modified, h.modified + r.modified);
        assert_eq!(whole.staged, h.staged + r.staged);
        assert_eq!(whole.untracked, h.untracked + r.untracked);
    }
    assert_eq!(count_changes(text), counts(3, 3, 1));
}

#[test]
fn short_lines_are_skipped() {
    assert_eq!(line_counts(b""), counts(0, 0, 0));
    assert_eq!(line_counts(b"M"), counts(0, 0, 0));
    assert_eq!(line_counts(b"?"), counts(0, 0, 0));
    assert_eq!(count_changes(b"M\n?\n\n"), counts(0, 0, 0));
}

#[test]
fn count_changes_sums_the_lines() {
    let text = b" M src/a.rs\nM  src/b.rs\nMM src/c.rs\n?? notes.txt\n?? tmp/\nA  new.rs\n";
    assert_eq!(count_changes(text), counts(2, 3, 2));
}

#[test]
fn count_changes_of_nothing_is_zero() {
    assert_eq!(count_changes(b""), counts(0, 0, 0));
    assert_eq!(count_changes(b"\n"), counts(0, 0, 0));
    assert_eq!(count_changes(b"\n\n\n"), counts(0, 0, 0));
}

#[test]
fn last_line_needs_no_newline() {
    assert_eq!(count_changes(b"?? a"), counts(0, 0, 1));
    assert_eq!(count_changes(b"?? a\n M b"), counts(1, 0, 1));
    assert_eq!(count_changes(b"?? a\n M b\n"), counts(1, 0, 1));
}

#[test]
fn carriage_return_before_newline_ends_the_line() {
    assert_eq!(count_changes(b"M\r\n"), counts(0, 0, 0));
    assert_eq!(count_changes(b" M a\r\n?? b\r\n"), counts(1, 0, 1));
    assert_eq!(count_changes(b"\r\n"), counts(0, 0, 0));
}

#[test]
fn bare_carriage_return_belongs_to_the_line() {
    assert_eq!(count_changes(b"M\r"), counts(1, 1, 0));
    assert_eq!(count_changes(b"M\r\r\n"), counts(1, 1, 0));
    assert_eq!(count_changes(b" \r"), counts(1, 0, 0));
}

#[test]
fn count_changes_agrees_with_line_iterator() {
    let samples = [
        "", "\n", "\r", "\r\n", "M", "M\n", "MM", "MM\n", "??\n??", "?? a\r\n M b\r", "é\nM ",
        " M a\n\n\nD  b\n", "\n?? x", "AM x\nRM y -> z\n?? w\n", "M\r\nM\rM\n", "\u{fffd}?\n",
        "  \n??\n? \n ?\n", "UU conflict\nDD gone\n",
    ];
    for sample in samples {
        assert_eq!(count_changes(sample.as_bytes()), reference_count(sample), "{:?}", sample);
    }
}
