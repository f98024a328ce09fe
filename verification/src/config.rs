//! The registry of slots, and the resolution of the slot that a command is
//! about.

use crate::error::SlotError;
use crate::error::SlotErrorView;
use crate::git::availability;
use crate::git::availability_of;
use crate::git::probe_view;
use crate::git::Availability;
use crate::git::GitStatus;
use crate::text::same_text;
use vstd::prelude::*;

verus! {

/// The configured slots, in the order of the configuration.
#[derive(Clone, Debug, PartialEq, Eq)]
pub struct Config {
    pub slots: Vec<SlotConfig>,
}

/// One slot: its name, the directory it lives in, and a free-form tag.
#[derive(Clone, Debug, PartialEq, Eq)]
pub struct SlotConfig {
    pub name: String,
    pub path: String,
    pub slot_type: String,
}

/// Position `index` holds the first slot of `slots` that is called `name`.
pub open spec fn is_first_named(slots: Seq<SlotConfig>, name: Seq<char>, index: int) -> bool {
    &&& 0 <= index < slots.len()
    &&& slots[index].name@ == name
    &&& forall|j: int| 0 <= j < index ==> slots[j].name@ != name
}

/// No slot of `slots` is called `name`.
pub open spec fn none_named(slots: Seq<SlotConfig>, name: Seq<char>) -> bool {
    forall|j: int| 0 <= j < slots.len() ==> slots[j].name@ != name
}

/// The probe at `index` shows an occupied slot: one that was reached and is
/// not available.
pub open spec fn is_occupied_at(probes: Seq<Option<GitStatus>>, index: int) -> bool {
    0 <= index < probes.len() && availability_of(probe_view(probes[index]))
        == Availability::Occupied
}

/// `candidates` lists, in ascending order and once each, the positions of
/// the occupied slots among `probes`.
pub open spec fn lists_occupied(candidates: Seq<usize>, probes: Seq<Option<GitStatus>>) -> bool {
    &&& forall|k: int|
        0 <= k < candidates.len() ==> is_occupied_at(probes, #[trigger] candidates[k] as int)
    &&& forall|k: int, l: int| 0 <= k < l < candidates.len() ==> candidates[k] < candidates[l]
    &&& forall|i: int| is_occupied_at(probes, i) ==> exists|k: int|
        0 <= k < candidates.len() && #[trigger] candidates[k] == i
}

/// `candidates` lists every position below `count`, in order.
pub open spec fn lists_all(candidates: Seq<usize>, count: nat) -> bool {
    &&& candidates.len() == count
    &&& forall|k: int| 0 <= k < count ==> candidates[k] == k
}

/// No two slots of `slots` have the same name.
pub open spec fn names_unique(slots: Seq<SlotConfig>) -> bool {
    forall|i: int, j: int| 0 <= i < j < slots.len() ==> slots[i].name@ != slots[j].name@
}

/// In a registry with unique names the slot that a lookup finds is the only
/// one of that name.
pub proof fn lemma_unique_name_found_once(slots: Seq<SlotConfig>, name: Seq<char>, index: int)
    requires
        names_unique(slots),
        is_first_named(slots, name, index),
    ensures
        forall|j: int| 0 <= j < slots.len() && j != index ==> slots[j].name@ != name,
{
}

impl Config {
    /// Looks a slot up by its exact name. Of several slots with that name
    /// the first one is found.
    pub fn find(&self, name: &str) -> (found: Option<usize>)
        ensures
            match found {
                Some(index) => is_first_named(self.slots@, name@, index as int),
                None => none_named(self.slots@, name@),
            },
    {
        let mut i: usize = 0;
        while i < self.slots.len()
            invariant
                i <= self.slots.len(),
                forall|j: int| 0 <= j < i ==> self.slots@[j].name@ != name@,
            decreases self.slots.len() - i,
        {
            if same_text(self.slots[i].name.as_str(), name) {
                return Some(i);
            }
            i += 1;
        }
        None
    }
}

/// The positions of the occupied slots among `probes`, the fresh probe
/// results of the slots in registry order.
pub fn occupied_slots(probes: &Vec<Option<GitStatus>>) -> (candidates: Vec<usize>)
    ensures
        lists_occupied(candidates@, probes@),
{
    let mut candidates: Vec<usize> = Vec::new();
    let mut i: usize = 0;
    while i < probes.len()
        invariant
            i <= probes.len(),
            forall|k: int|
                0 <= k < candidates@.len() ==> is_occupied_at(
                    probes@,
                    #[trigger] candidates@[k] as int,
                ) && candidates@[k] < i,
            forall|k: int, l: int|
                0 <= k < l < candidates@.len() ==> candidates@[k] < candidates@[l],
            forall|j: int| 0 <= j < i && is_occupied_at(probes@, j) ==> exists|k: int|
                0 <= k < candidates@.len() && #[trigger] candidates@[k] == j,
        decreases probes.len() - i,
    {
        let verdict = availability(&probes[i]);
        if verdict == Availability::Occupied {
            let ghost before = candidates@;
            candidates.push(i);
            proof {
                assert forall|j: int| 0 <= j < i + 1 && is_occupied_at(probes@, j) implies exists|
                    k: int,
                | 0 <= k < candidates@.len() && #[trigger] candidates@[k] == j by {
                    if j < i {
                        let k = choose|k: int| 0 <= k < before.len() && #[trigger] before[k] == j;
                        assert(candidates@[k] == j);
                    } else {
                        assert(candidates@[before.len() as int] == j);
                    }
                }
            }
        }
        i += 1;
    }
    candidates
}

/// What the resolution of a command's slot came to.
#[derive(Clone, Debug, PartialEq, Eq)]
pub enum Selection {
    /// The slot at this position of the registry.
    Slot(usize),
    /// The user is to choose among the slots at these positions.
    Ask(Vec<usize>),
    /// No slot is a candidate, so there is nothing to do.
    NothingToDo,
}

/// The outcome of looking `name` up in `slots`: the first slot of that name,
/// or the error that reports the name.
pub open spec fn resolves_name(
    slots: Seq<SlotConfig>,
    name: Seq<char>,
    outcome: Result<Selection, SlotError>,
) -> bool {
    match outcome {
        Ok(Selection::Slot(index)) => is_first_named(slots, name, index as int),
        Ok(_) => false,
        Err(error) => none_named(slots, name) && error@ == SlotErrorView::NotFound(name),
    }
}

fn resolve_name(config: &Config, name: &str) -> (outcome: Result<Selection, SlotError>)
    ensures
        resolves_name(config.slots@, name@, outcome),
{
    match config.find(name) {
        Some(index) => Ok(Selection::Slot(index)),
        None => Err(SlotError::NotFound(name.to_owned())),
    }
}

/// Resolves the slot to enter. With a name it is the slot of that name,
/// whether it is available or not, and an unknown name is an error. Without
/// one the user is asked to choose among all slots.
pub fn select_for_enter(config: &Config, name: Option<&str>) -> (outcome: Result<
    Selection,
    SlotError,
>)
    ensures
        match name {
            Some(name) => resolves_name(config.slots@, name@, outcome),
            None => outcome matches Ok(Selection::Ask(candidates)) && lists_all(
                candidates@,
                config.slots@.len(),
            ),
        },
{
    match name {
        Some(name) => resolve_name(config, name),
        None => {
            let mut candidates: Vec<usize> = Vec::new();
            let mut i: usize = 0;
            while i < config.slots.len()
                invariant
                    i <= config.slots.len(),
                    lists_all(candidates@, i as nat),
                decreases config.slots.len() - i,
            {
                candidates.push(i);
                i += 1;
            }
            Ok(Selection::Ask(candidates))
        },
    }
}

/// Resolves the slot to release. With a name it is the slot of that name in
/// the whole registry, occupied or not, and an unknown name is an error.
/// Without one the candidates are the slots that `probes` shows as occupied:
/// the user is asked to choose among them, and if there are none there is
/// nothing to do, which is no error.
pub fn select_for_release(
    config: &Config,
    name: Option<&str>,
    probes: &Vec<Option<GitStatus>>,
) -> (outcome: Result<Selection, SlotError>)
    requires
        name is None ==> probes@.len() == config.slots@.len(),
    ensures
        match name {
            Some(name) => resolves_name(config.slots@, name@, outcome),
            None => match outcome {
                Ok(Selection::Ask(candidates)) => candidates@.len() > 0 && lists_occupied(
                    candidates@,
                    probes@,
                ),
                Ok(Selection::NothingToDo) => forall|i: int| !is_occupied_at(probes@, i),
                _ => false,
            },
        },
{
    match name {
        Some(name) => resolve_name(config, name),
        None => {
            let candidates = occupied_slots(probes);
            if candidates.len() == 0 {
                Ok(Selection::NothingToDo)
            } else {
                Ok(Selection::Ask(candidates))
            }
        },
    }
}

/// The slot that the user's answer picks among `candidates`: the candidate
/// at the chosen position, or a cancellation when the user gave no answer.
pub fn pick(candidates: &Vec<usize>, choice: Option<usize>) -> (picked: Result<usize, SlotError>)
    requires
        choice is Some ==> choice->0 < candidates@.len(),
    ensures
        match choice {
            Some(position) => picked == Ok::<usize, SlotError>(candidates@[position as int]),
            None => picked matches Err(error) && error@ == SlotErrorView::Cancelled,
        },
{
    match choice {
        Some(position) => Ok(candidates[position]),
        None => Err(SlotError::Cancelled),
    }
}

} // verus!
