//! Verified core of an autonomous agent runtime: the security policy that
//! gates every path access and command, the tool-execution contract with a
//! line-oriented file-edit tool, and the state machine that drives one agent
//! turn of model/tool interaction.

use vstd::prelude::*;

pub mod config;
pub mod file_edit;
pub mod json;
pub mod prompt;
pub mod runtime;
pub mod security;
pub mod text;
pub mod tool;
pub mod turn;

verus! {

/// Result codes handed across the runtime's embedding boundary.
#[derive(Debug, Copy, Clone, PartialEq, Eq, Structural)]
pub enum ZcResult {
    Success,
    Error,
    InvalidArg,
    NotInitialized,
    OutOfMemory,
}

impl ZcResult {
    /// The conventional integer code for each outcome.
    pub fn code(&self) -> (r: i64)
        ensures
            r == match *self {
                ZcResult::Success => 0,
                ZcResult::Error => -1,
                ZcResult::InvalidArg => -2,
                ZcResult::NotInitialized => -3,
                ZcResult::OutOfMemory => -4,
            },
    {
        match *self {
            ZcResult::Success => 0,
            ZcResult::Error => -1,
            ZcResult::InvalidArg => -2,
            ZcResult::NotInitialized => -3,
            ZcResult::OutOfMemory => -4,
        }
    }
}

} // verus!
