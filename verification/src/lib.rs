//! Joséphine's core logic: the checks' parsing and verdicts, the remedies,
//! and the text the commands render, with their contracts.

pub mod check;
pub mod explain;
pub mod checks;
pub mod config;
pub mod doctor;
pub mod fixed;
pub mod i18n;
pub mod json;
pub mod remedy;
pub mod report;
pub mod status;
pub mod style;
pub mod text;

use vstd::prelude::*;

verus! {

} // verus!
