//! The change list of a working tree: one entry per line, each starting with
//! a two-character code (index state, then worktree state).

use vstd::prelude::*;
use vstd::slice::slice_subrange;

verus! {

/// How many entries of each kind a change list holds.
#[derive(Clone, Debug, PartialEq, Eq)]
pub struct ChangeCounts {
    pub modified: usize,
    pub untracked: usize,
    pub staged: usize,
}

/// The mathematical content of a [`ChangeCounts`].
pub struct Tally {
    pub modified: nat,
    pub untracked: nat,
    pub staged: nat,
}

impl View for ChangeCounts {
    type V = Tally;

    open spec fn view(&self) -> Tally {
        Tally {
            modified: self.modified as nat,
            untracked: self.untracked as nat,
            staged: self.staged as nat,
        }
    }
}

impl Tally {
    /// No entry of any kind.
    pub open spec fn zero() -> Tally {
        Tally { modified: 0, untracked: 0, staged: 0 }
    }

    /// The sum, kind by kind.
    pub open spec fn plus(self, other: Tally) -> Tally {
        Tally {
            modified: self.modified + other.modified,
            untracked: self.untracked + other.untracked,
            staged: self.staged + other.staged,
        }
    }
}

pub const NEWLINE: u8 = 0x0a;

pub const CARRIAGE_RETURN: u8 = 0x0d;

pub const BLANK: u8 = 0x20;

pub const QUESTION_MARK: u8 = 0x3f;

/// A state character counts as a change unless it is the blank, which marks
/// "unchanged".
pub open spec fn marks_change(state: u8) -> bool {
    state != BLANK
}

/// What one line of the change list contributes. A line of fewer than two
/// bytes contributes nothing; `??` is one untracked entry; otherwise the
/// index state counts as staged and the worktree state as modified, each
/// unless it is blank.
pub open spec fn line_tally(line: Seq<u8>) -> Tally {
    if line.len() < 2 {
        Tally::zero()
    } else if line[0] == QUESTION_MARK && line[1] == QUESTION_MARK {
        Tally { modified: 0, untracked: 1, staged: 0 }
    } else {
        Tally {
            modified: if marks_change(line[1]) { 1 } else { 0 },
            untracked: 0,
            staged: if marks_change(line[0]) { 1 } else { 0 },
        }
    }
}

/// The position of the first newline of `text`, or its length if it has none.
pub open spec fn first_line_end(text: Seq<u8>) -> int
    decreases text.len(),
{
    if text.len() == 0 || text[0] == NEWLINE {
        0
    } else {
        1 + first_line_end(text.drop_first())
    }
}

/// The first line of `text`, without its terminator: a newline, or a
/// carriage return and a newline. A carriage return that no newline follows
/// belongs to the line.
pub open spec fn first_line(text: Seq<u8>) -> Seq<u8> {
    let end = first_line_end(text);
    if 0 < end < text.len() && text[end - 1] == CARRIAGE_RETURN {
        text.subrange(0, end - 1)
    } else {
        text.subrange(0, end)
    }
}

/// What follows the first line of `text` and its terminator.
pub open spec fn after_first_line(text: Seq<u8>) -> Seq<u8> {
    let end = first_line_end(text);
    if end < text.len() {
        text.subrange(end + 1, text.len() as int)
    } else {
        Seq::empty()
    }
}

/// The lines of `text`. A final newline ends the last line and starts no
/// empty one.
pub open spec fn lines(text: Seq<u8>) -> Seq<Seq<u8>>
    decreases text.len(),
    via lines_decreases
{
    if text.len() == 0 {
        Seq::empty()
    } else {
        seq![first_line(text)] + lines(after_first_line(text))
    }
}

#[via_fn]
proof fn lines_decreases(text: Seq<u8>) {
    lemma_first_line_end_bounds(text);
}

/// The sum of what each line contributes.
pub open spec fn lines_tally(lines: Seq<Seq<u8>>) -> Tally
    decreases lines.len(),
{
    if lines.len() == 0 {
        Tally::zero()
    } else {
        line_tally(lines[0]).plus(lines_tally(lines.drop_first()))
    }
}

/// What a whole change list amounts to.
pub open spec fn text_tally(text: Seq<u8>) -> Tally {
    lines_tally(lines(text))
}

/// The first line ends within the text, at a newline or at the end of the
/// text, and holds no newline itself.
pub proof fn lemma_first_line_end_bounds(text: Seq<u8>)
    ensures
        0 <= first_line_end(text) <= text.len(),
        first_line_end(text) < text.len() ==> text[first_line_end(text)] == NEWLINE,
        forall|k: int| 0 <= k < first_line_end(text) ==> text[k] != NEWLINE,
    decreases text.len(),
{
    if text.len() == 0 || text[0] == NEWLINE {
    } else {
        let rest = text.drop_first();
        lemma_first_line_end_bounds(rest);
        assert forall|k: int| 0 <= k < first_line_end(text) implies text[k] != NEWLINE by {
            if k > 0 {
                assert(text[k] == rest[k - 1]);
            }
        }
    }
}

/// A position that holds the first newline, or the length of a text without
/// one, is where the first line ends.
pub proof fn lemma_first_line_end_is(text: Seq<u8>, end: int)
    requires
        0 <= end <= text.len(),
        forall|k: int| 0 <= k < end ==> text[k] != NEWLINE,
        end < text.len() ==> text[end] == NEWLINE,
    ensures
        first_line_end(text) == end,
{
    lemma_first_line_end_bounds(text);
    let found = first_line_end(text);
    if found < end {
        assert(text[found] == NEWLINE);
    } else if end < found {
        assert(text[end] == NEWLINE);
    }
}

/// The tally of a text is that of its first line plus that of the rest.
pub proof fn lemma_text_tally_unfold(text: Seq<u8>)
    requires
        text.len() > 0,
    ensures
        text_tally(text) == line_tally(first_line(text)).plus(
            text_tally(after_first_line(text)),
        ),
{
    let all = lines(text);
    let rest = lines(after_first_line(text));
    assert(all == seq![first_line(text)] + rest);
    assert(all[0] == first_line(text));
    assert(all.drop_first() =~= rest);
}

/// A line that starts with `??` is exactly one untracked entry, whatever
/// follows the two question marks, and adds nothing to the modified or the
/// staged entries.
pub proof fn lemma_untracked_line(line: Seq<u8>)
    requires
        line.len() >= 2,
        line[0] == QUESTION_MARK,
        line[1] == QUESTION_MARK,
    ensures
        line_tally(line) == (Tally { modified: 0, untracked: 1, staged: 0 }),
{
}

/// A line whose index state and worktree state are both non-blank, and not
/// both a question mark, is exactly one staged and one modified entry.
pub proof fn lemma_staged_and_modified_line(line: Seq<u8>)
    requires
        line.len() >= 2,
        line[0] != BLANK,
        line[1] != BLANK,
        !(line[0] == QUESTION_MARK && line[1] == QUESTION_MARK),
    ensures
        line_tally(line) == (Tally { modified: 1, untracked: 0, staged: 1 }),
{
}

/// A line and its newline at the head of a change list add what the line
/// contributes to the tally of what follows.
pub proof fn lemma_leading_line(line: Seq<u8>, rest: Seq<u8>)
    requires
        !line.contains(NEWLINE),
        line.len() > 0 ==> line.last() != CARRIAGE_RETURN,
    ensures
        text_tally(line + seq![NEWLINE] + rest) == line_tally(line).plus(text_tally(rest)),
{
    let text = line + seq![NEWLINE] + rest;
    assert forall|k: int| 0 <= k < line.len() implies text[k] != NEWLINE by {
        assert(line.contains(line[k]));
    }
    lemma_first_line_end_is(text, line.len() as int);
    assert(first_line(text) =~= line);
    assert(after_first_line(text) =~= rest);
    lemma_text_tally_unfold(text);
}

/// The same for a line that ends with a carriage return and a newline: the
/// carriage return belongs to the terminator.
pub proof fn lemma_leading_line_crlf(line: Seq<u8>, rest: Seq<u8>)
    requires
        !line.contains(NEWLINE),
    ensures
        text_tally(line + seq![CARRIAGE_RETURN, NEWLINE] + rest) == line_tally(line).plus(
            text_tally(rest),
        ),
{
    let text = line + seq![CARRIAGE_RETURN, NEWLINE] + rest;
    assert forall|k: int| 0 <= k < line.len() + 1 implies text[k] != NEWLINE by {
        if k < line.len() {
            assert(line.contains(line[k]));
        }
    }
    lemma_first_line_end_is(text, line.len() as int + 1);
    assert(first_line(text) =~= line);
    assert(after_first_line(text) =~= rest);
    lemma_text_tally_unfold(text);
}

/// The tally of a change list is the sum of the tallies of its parts,
/// wherever it is cut after a newline.
pub proof fn lemma_tally_of_parts(head: Seq<u8>, rest: Seq<u8>)
    requires
        head.len() > 0 ==> head.last() == NEWLINE,
    ensures
        text_tally(head + rest) == text_tally(head).plus(text_tally(rest)),
    decreases head.len(),
{
    if head.len() == 0 {
        assert(head + rest =~= rest);
        assert(lines(head) =~= Seq::<Seq<u8>>::empty());
    } else {
        let whole = head + rest;
        lemma_first_line_end_bounds(head);
        let end = first_line_end(head);
        if end == head.len() {
            assert(head[head.len() - 1] != NEWLINE);
        }
        assert forall|k: int| 0 <= k < end implies whole[k] != NEWLINE by {
            assert(whole[k] == head[k]);
        }
        assert(whole[end] == head[end]);
        lemma_first_line_end_is(whole, end);
        let tail = after_first_line(head);
        assert(first_line(whole) =~= first_line(head));
        assert(after_first_line(whole) =~= tail + rest);
        if tail.len() > 0 {
            assert(tail.last() == head.last());
        }
        lemma_tally_of_parts(tail, rest);
        lemma_text_tally_unfold(head);
        lemma_text_tally_unfold(whole);
    }
}

/// A line and its newline add what the line contributes, wherever in a
/// change list the line stands: after nothing, or after a newline.
pub proof fn lemma_line_anywhere(before: Seq<u8>, line: Seq<u8>, rest: Seq<u8>)
    requires
        before.len() > 0 ==> before.last() == NEWLINE,
        !line.contains(NEWLINE),
        line.len() > 0 ==> line.last() != CARRIAGE_RETURN,
    ensures
        text_tally(before + line + seq![NEWLINE] + rest) == text_tally(before).plus(
            line_tally(line),
        ).plus(text_tally(rest)),
{
    assert(before + line + seq![NEWLINE] + rest =~= before + (line + seq![NEWLINE] + rest));
    lemma_tally_of_parts(before, line + seq![NEWLINE] + rest);
    lemma_leading_line(line, rest);
}

/// Classifies one line of a change list.
pub fn line_counts(line: &[u8]) -> (counts: ChangeCounts)
    ensures
        counts@ == line_tally(line@),
{
    if line.len() < 2 {
        return ChangeCounts { modified: 0, untracked: 0, staged: 0 };
    }
    let index = line[0];
    let worktree = line[1];
    if index == QUESTION_MARK && worktree == QUESTION_MARK {
        ChangeCounts { modified: 0, untracked: 1, staged: 0 }
    } else {
        let staged: usize = if index != BLANK { 1 } else { 0 };
        let modified: usize = if worktree != BLANK { 1 } else { 0 };
        ChangeCounts { modified, untracked: 0, staged }
    }
}

/// Counts the entries of a change list, line by line.
pub fn count_changes(text: &[u8]) -> (counts: ChangeCounts)
    ensures
        counts@ == text_tally(text@),
{
    let n = text.len();
    let mut total = ChangeCounts { modified: 0, untracked: 0, staged: 0 };
    let mut start: usize = 0;
    assert(text@.subrange(0, n as int) =~= text@);
    while start < n
        invariant
            start <= n,
            n == text@.len(),
            total.modified <= start,
            total.untracked <= start,
            total.staged <= start,
            text_tally(text@) == total@.plus(text_tally(text@.subrange(start as int, n as int))),
        decreases n - start,
    {
        let ghost rest = text@.subrange(start as int, n as int);
        let mut stop: usize = start;
        while stop < n && text[stop] != NEWLINE
            invariant
                start <= stop <= n,
                n == text@.len(),
                forall|k: int| start <= k < stop ==> text@[k] != NEWLINE,
            decreases n - stop,
        {
            stop += 1;
        }
        let end: usize = if stop < n && start < stop && text[stop - 1] == CARRIAGE_RETURN {
            stop - 1
        } else {
            stop
        };
        let line = slice_subrange(text, start, end);
        let found = line_counts(line);
        let next: usize = if stop < n { stop + 1 } else { n };
        proof {
            lemma_first_line_end_is(rest, stop - start);
            assert(first_line(rest) =~= line@);
            assert(after_first_line(rest) =~= text@.subrange(next as int, n as int));
            lemma_text_tally_unfold(rest);
        }
        total =
        ChangeCounts {
            modified: total.modified + found.modified,
            untracked: total.untracked + found.untracked,
            staged: total.staged + found.staged,
        };
        start = next;
    }
    proof {
        assert(text@.subrange(n as int, n as int) =~= Seq::<u8>::empty());
    }
    total
}

} // verus!
