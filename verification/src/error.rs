//! Programmer-error conditions: misconstructed inputs that are surfaced
//! immediately and never silently absorbed, as opposed to per-task failures,
//! which are isolated into task outcomes.

use vstd::prelude::*;

verus! {

#[derive(Clone, Copy, Debug, PartialEq, Eq, Structural)]
pub enum ConstructionError {
    /// Two tasks of one run carry the same name.
    DuplicateTaskName,
    /// The goal token is not one of the known tokens.
    InvalidGoalToken,
}

impl ConstructionError {
    pub fn message(&self) -> (r: &'static str)
        ensures
            *self == ConstructionError::DuplicateTaskName ==> r@ == "duplicate task name"@,
            *self == ConstructionError::InvalidGoalToken ==> r@ == "invalid goal token"@,
    {
        match self {
            ConstructionError::DuplicateTaskName => "duplicate task name",
            ConstructionError::InvalidGoalToken => "invalid goal token",
        }
    }
}

} // verus!
