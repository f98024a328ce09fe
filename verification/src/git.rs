//! The state of one slot as version control reports it, the predicates
//! derived from it, and the verdict on whether the slot is free.

use crate::porcelain::count_changes;
use crate::porcelain::text_tally;
use crate::text::decimal;
use crate::text::decimal_text;
use crate::text::is_printable;
use crate::text::lemma_decimal_printable;
use crate::text::lemma_joined_printable;
use crate::text::join_text;
use crate::text::joined;
use crate::text::same_text;
use crate::text::texts_of;
use crate::text::trim_text;
use crate::text::trimmed;
use vstd::prelude::*;
use vstd::string::StringExecFns;
use vstd::utf8::decode_utf8;
use vstd::utf8::decode_utf8_encode_utf8;
use vstd::utf8::encode_utf8;
use vstd::utf8::valid_utf8;

verus! {

/// What a probe of a slot's directory found: the current branch (empty when
/// the head is detached or cannot be resolved) and the number of outstanding
/// changes of each kind.
#[derive(Clone, Debug, PartialEq, Eq)]
pub struct GitStatus {
    pub branch: String,
    pub modified: usize,
    pub untracked: usize,
    pub staged: usize,
}

/// The mathematical content of a [`GitStatus`].
pub struct StatusView {
    pub branch: Seq<char>,
    pub modified: nat,
    pub untracked: nat,
    pub staged: nat,
}

impl View for GitStatus {
    type V = StatusView;

    open spec fn view(&self) -> StatusView {
        StatusView {
            branch: self.branch@,
            modified: self.modified as nat,
            untracked: self.untracked as nat,
            staged: self.staged as nat,
        }
    }
}

/// The name of the branch that marks a slot as free.
pub open spec fn free_branch() -> Seq<char> {
    "develop"@
}

/// One part of a status text: a count and what it counts.
pub open spec fn counted(n: nat, what: Seq<char>) -> Seq<char> {
    decimal(n) + what
}

impl StatusView {
    /// No modified, staged or untracked entry is outstanding.
    pub open spec fn is_clean(self) -> bool {
        self.modified == 0 && self.untracked == 0 && self.staged == 0
    }

    /// Clean and on the free branch.
    pub open spec fn is_available(self) -> bool {
        self.is_clean() && self.branch == free_branch()
    }

    /// The kinds of change that are present, each with its count: modified,
    /// then staged, then untracked.
    pub open spec fn parts(self) -> Seq<Seq<char>> {
        let modified = if self.modified > 0 {
            seq![counted(self.modified, " modified"@)]
        } else {
            Seq::empty()
        };
        let staged = if self.staged > 0 {
            seq![counted(self.staged, " staged"@)]
        } else {
            Seq::empty()
        };
        let untracked = if self.untracked > 0 {
            seq![counted(self.untracked, " untracked"@)]
        } else {
            Seq::empty()
        };
        modified + staged + untracked
    }

    /// `clean`, or the parts that are present, separated by a comma and a
    /// blank.
    pub open spec fn status_text(self) -> Seq<char> {
        if self.is_clean() {
            "clean"@
        } else {
            joined(self.parts(), ", "@)
        }
    }
}

fn counted_text(n: usize, what: &str) -> (out: String)
    ensures
        out@ == counted(n as nat, what@),
{
    let mut out = decimal_text(n);
    out.append(what);
    out
}

impl GitStatus {
    /// A short description of the outstanding changes.
    pub fn status_text(&self) -> (out: String)
        ensures
            out@ == self@.status_text(),
    {
        if self.is_clean() {
            return "clean".to_owned();
        }
        let mut parts: Vec<String> = Vec::new();
        if self.modified > 0 {
            parts.push(counted_text(self.modified, " modified"));
        }
        if self.staged > 0 {
            parts.push(counted_text(self.staged, " staged"));
        }
        if self.untracked > 0 {
            parts.push(counted_text(self.untracked, " untracked"));
        }
        assert(texts_of(parts@) =~= self@.parts());
        join_text(&parts, ", ")
    }

    /// Whether nothing is outstanding.
    pub fn is_clean(&self) -> (clean: bool)
        ensures
            clean == self@.is_clean(),
    {
        self.modified == 0 && self.untracked == 0 && self.staged == 0
    }

    /// Whether the slot is free: clean, and on the free branch.
    pub fn is_available(&self) -> (available: bool)
        ensures
            available == self@.is_available(),
            available ==> self@.is_clean(),
    {
        self.is_clean() && same_text(self.branch.as_str(), "develop")
    }
}

/// A status text is made of printable characters of ASCII only.
pub proof fn lemma_status_text_printable(status: StatusView)
    ensures
        is_printable(status.status_text()),
{
    reveal_strlit("clean");
    reveal_strlit(" modified");
    reveal_strlit(" staged");
    reveal_strlit(" untracked");
    reveal_strlit(", ");
    lemma_decimal_printable(status.modified);
    lemma_decimal_printable(status.staged);
    lemma_decimal_printable(status.untracked);
    let parts = status.parts();
    assert forall|k: int| 0 <= k < parts.len() implies is_printable(#[trigger] parts[k]) by {
        assert(parts[k] == counted(status.modified, " modified"@) || parts[k] == counted(
            status.staged,
            " staged"@,
        ) || parts[k] == counted(status.untracked, " untracked"@));
    }
    lemma_joined_printable(parts, ", "@);
}

/// Whoever is available is clean.
pub proof fn lemma_available_is_clean(status: StatusView)
    requires
        status.is_available(),
    ensures
        status.is_clean(),
{
}

/// The three classifications of a slot, each excluding the others.
#[derive(Clone, Copy, Debug, PartialEq, Eq, Structural)]
pub enum Availability {
    Available,
    Occupied,
    Unreachable,
}

/// The content of a probe result: a status, or nothing when the slot could
/// not be reached.
pub open spec fn probe_view(probe: Option<GitStatus>) -> Option<StatusView> {
    match probe {
        Some(status) => Some(status@),
        None => None,
    }
}

/// The verdict on a probe result: unreachable without a status, available
/// with a clean status on the free branch, occupied otherwise.
pub open spec fn availability_of(probe: Option<StatusView>) -> Availability {
    match probe {
        None => Availability::Unreachable,
        Some(status) => if status.is_available() {
            Availability::Available
        } else {
            Availability::Occupied
        },
    }
}

/// Classifies a slot from what its probe found.
pub fn availability(probe: &Option<GitStatus>) -> (verdict: Availability)
    ensures
        verdict == availability_of(probe_view(*probe)),
{
    match probe {
        None => Availability::Unreachable,
        Some(status) => if status.is_available() {
            Availability::Available
        } else {
            Availability::Occupied
        },
    }
}

/// Every probe result has exactly one verdict, and each verdict is reached
/// in one way only.
pub proof fn lemma_availability_total(probe: Option<StatusView>)
    ensures
        availability_of(probe) == Availability::Unreachable <==> probe is None,
        availability_of(probe) == Availability::Available <==> probe is Some
            && probe->0.is_available(),
        availability_of(probe) == Availability::Occupied <==> probe is Some
            && !probe->0.is_available(),
{
}

/// Probe results with the same content get the same verdict.
pub proof fn lemma_availability_deterministic(first: Option<GitStatus>, second: Option<GitStatus>)
    requires
        probe_view(first) == probe_view(second),
    ensures
        availability_of(probe_view(first)) == availability_of(probe_view(second)),
{
}

/// The two queries that a probe puts to version control.
#[derive(Clone, Copy, Debug, PartialEq, Eq, Structural)]
pub enum Query {
    /// The name of the current branch.
    Branch,
    /// The change list of working tree and index.
    Changes,
}

impl Query {
    /// The subcommand and its option.
    pub open spec fn operation(self) -> Seq<Seq<char>> {
        match self {
            Query::Branch => seq!["branch"@, "--show-current"@],
            Query::Changes => seq!["status"@, "--porcelain"@],
        }
    }

    /// The arguments of the query's command for the directory `path`.
    pub open spec fn command(self, path: Seq<char>) -> Seq<Seq<char>> {
        seq!["-C"@, path] + self.operation()
    }

    /// The arguments with which version control answers the query for the
    /// directory `path`.
    pub fn arguments(self, path: &str) -> (arguments: Vec<String>)
        ensures
            texts_of(arguments@) == self.command(path@),
    {
        let mut arguments: Vec<String> = Vec::new();
        arguments.push("-C".to_owned());
        arguments.push(path.to_owned());
        match self {
            Query::Branch => {
                arguments.push("branch".to_owned());
                arguments.push("--show-current".to_owned());
            },
            Query::Changes => {
                arguments.push("status".to_owned());
                arguments.push("--porcelain".to_owned());
            },
        }
        assert(texts_of(arguments@) =~= self.command(path@));
        arguments
    }
}

/// The status that the answers to the two queries amount to: the branch is
/// the first answer without surrounding whitespace, the counts are those of
/// the change list in the second.
pub open spec fn status_of(branch_text: Seq<char>, change_text: Seq<char>) -> StatusView {
    let tally = text_tally(encode_utf8(change_text));
    StatusView {
        branch: trimmed(branch_text),
        modified: tally.modified,
        untracked: tally.untracked,
        staged: tally.staged,
    }
}

/// Builds a status from the text of the two answers.
pub fn status_from_text(branch_text: &str, change_text: &str) -> (status: GitStatus)
    ensures
        status@ == status_of(branch_text@, change_text@),
{
    let counts = count_changes(change_text.as_bytes());
    GitStatus {
        branch: trim_text(branch_text),
        modified: counts.modified,
        untracked: counts.untracked,
        staged: counts.staged,
    }
}

/// The text that a lossy decoding makes of `bytes`.
pub uninterp spec fn lossy_text(bytes: Seq<u8>) -> Seq<char>;

/// `String::from_utf8_lossy`: decodes bytes as UTF-8 and puts U+FFFD in the
/// place of what is not. The contract names the result, and says that valid
/// UTF-8 is decoded as it stands.
#[verifier::external_body]
fn decode_lossy(bytes: &[u8]) -> (text: String)
    ensures
        text@ == lossy_text(bytes@),
        valid_utf8(bytes@) ==> text@ == decode_utf8(bytes@),
{
    String::from_utf8_lossy(bytes).into_owned()
}

/// What a probe amounts to. There is a status only if the directory exists
/// and both queries were answered; then it is the status of the two answers,
/// decoded.
pub open spec fn probe_of(
    path_exists: bool,
    branch_answer: Option<Seq<u8>>,
    change_answer: Option<Seq<u8>>,
) -> Option<StatusView> {
    if path_exists && branch_answer is Some && change_answer is Some {
        Some(status_of(lossy_text(branch_answer->0), lossy_text(change_answer->0)))
    } else {
        None
    }
}

/// The status that two answers in valid UTF-8 amount to, with nothing lost
/// in decoding: the branch is the decoded first answer without surrounding
/// whitespace, the counts are those of the second answer's bytes.
pub open spec fn status_of_valid(branch_answer: Seq<u8>, change_answer: Seq<u8>) -> StatusView {
    let tally = text_tally(change_answer);
    StatusView {
        branch: trimmed(decode_utf8(branch_answer)),
        modified: tally.modified,
        untracked: tally.untracked,
        staged: tally.staged,
    }
}

/// The content of an answer that may be missing.
pub open spec fn answer_view(answer: Option<&[u8]>) -> Option<Seq<u8>> {
    match answer {
        Some(bytes) => Some(bytes@),
        None => None,
    }
}

/// Decides whether a query was answered: its output is the answer only if
/// the query could be started and ended in success. A query that failed in
/// either way has no answer, whatever it wrote.
pub fn query_answer<'a>(started: bool, succeeded: bool, output: &'a [u8]) -> (answer: Option<
    &'a [u8],
>)
    ensures
        answer_view(answer) == if started && succeeded {
            Some(output@)
        } else {
            None
        },
{
    if started && succeeded {
        Some(output)
    } else {
        None
    }
}

/// Combines the outcome of a probe into a status, or into `None` for a slot
/// that cannot be reached: one whose directory is missing, or for which
/// either query went unanswered. No status is built from one answer alone.
pub fn get_status(
    path_exists: bool,
    branch_answer: Option<&[u8]>,
    change_answer: Option<&[u8]>,
) -> (probe: Option<GitStatus>)
    ensures
        probe_view(probe) == probe_of(
            path_exists,
            answer_view(branch_answer),
            answer_view(change_answer),
        ),
        path_exists && branch_answer is Some && change_answer is Some && valid_utf8(
            branch_answer->0@,
        ) && valid_utf8(change_answer->0@) ==> probe_view(probe) == Some(
            status_of_valid(branch_answer->0@, change_answer->0@),
        ),
{
    if !path_exists {
        return None;
    }
    match (branch_answer, change_answer) {
        (Some(branch_bytes), Some(change_bytes)) => {
            let branch_text = decode_lossy(branch_bytes);
            let change_text = decode_lossy(change_bytes);
            proof {
                if valid_utf8(change_bytes@) {
                    decode_utf8_encode_utf8(change_bytes@);
                }
            }
            Some(status_from_text(branch_text.as_str(), change_text.as_str()))
        },
        _ => None,
    }
}

} // verus!
