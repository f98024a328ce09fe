//! Slot pool management: classify working-directory slots from their
//! version-control state and drive the release of an occupied slot.

pub mod config;
pub mod display;
pub mod error;
pub mod git;
pub mod porcelain;
pub mod release;
pub mod text;
