//! The ways in which a command on a slot can end without having done its
//! work.

use crate::release::Stage;
use vstd::prelude::*;

verus! {

#[derive(Clone, Debug, PartialEq, Eq)]
pub enum SlotError {
    /// No slot of the registry has the requested name, which is carried.
    NotFound(String),
    /// The slot's directory is missing or could not be queried.
    Unreachable,
    /// The slot holds uncommitted work, so it is not released.
    PreconditionFailed,
    /// A stage of the release failed; the message says which and why.
    PipelineStageFailed(Stage, String),
    /// The user left the interactive choice. This is no failure.
    Cancelled,
}

/// The content of a [`SlotError`].
pub enum SlotErrorView {
    NotFound(Seq<char>),
    Unreachable,
    PreconditionFailed,
    PipelineStageFailed(Stage, Seq<char>),
    Cancelled,
}

impl View for SlotError {
    type V = SlotErrorView;

    open spec fn view(&self) -> SlotErrorView {
        match self {
            SlotError::NotFound(name) => SlotErrorView::NotFound(name@),
            SlotError::Unreachable => SlotErrorView::Unreachable,
            SlotError::PreconditionFailed => SlotErrorView::PreconditionFailed,
            SlotError::PipelineStageFailed(stage, message) => SlotErrorView::PipelineStageFailed(
                *stage,
                message@,
            ),
            SlotError::Cancelled => SlotErrorView::Cancelled,
        }
    }
}

impl SlotError {
    /// Only a cancelled choice is no failure.
    pub open spec fn is_fatal(self) -> bool {
        !(self is Cancelled)
    }

    /// The status with which the process ends: 0 after a cancelled choice, 1
    /// after any failure.
    pub fn exit_code(&self) -> (code: u8)
        ensures
            code == if self.is_fatal() { 1u8 } else { 0u8 },
    {
        match self {
            SlotError::Cancelled => 0,
            _ => 1,
        }
    }
}

} // verus!
