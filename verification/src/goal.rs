//! The requested end state for a host: copy-only, or one of the activation
//! actions understood by the remote system-activation command.

use vstd::prelude::*;
use crate::error::ConstructionError;

verus! {

/// What a run is asked to achieve on each host. `Push` copies the artifact
/// and stops; every other goal additionally activates it remotely.
#[derive(Clone, Copy, Debug, PartialEq, Eq, Structural)]
pub enum DeploymentGoal {
    Push,
    Switch,
    Boot,
    Test,
    DryActivate,
}

impl DeploymentGoal {
    /// Goals other than `Push` carry an activation phase after the transfer.
    pub open spec fn spec_requires_activation(self) -> bool {
        self != DeploymentGoal::Push
    }

    pub fn requires_activation(&self) -> (r: bool)
        ensures
            r == self.spec_requires_activation(),
    {
        match self {
            DeploymentGoal::Push => false,
            _ => true,
        }
    }

    /// The goal denoted by a command-line token, if any.
    pub open spec fn spec_from_token(s: Seq<char>) -> Option<DeploymentGoal> {
        if s == "push"@ {
            Some(DeploymentGoal::Push)
        } else if s == "switch"@ {
            Some(DeploymentGoal::Switch)
        } else if s == "boot"@ {
            Some(DeploymentGoal::Boot)
        } else if s == "test"@ {
            Some(DeploymentGoal::Test)
        } else if s == "dry-activate"@ {
            Some(DeploymentGoal::DryActivate)
        } else {
            None
        }
    }

    /// Parses a goal token. Exactly the five known tokens are accepted;
    /// anything else is a configuration error, reported as `None`.
    pub fn from_str(s: &str) -> (g: Option<DeploymentGoal>)
        ensures
            g == Self::spec_from_token(s@),
    {
        let owned = s.to_owned();
        if owned == "push".to_owned() {
            Some(DeploymentGoal::Push)
        } else if owned == "switch".to_owned() {
            Some(DeploymentGoal::Switch)
        } else if owned == "boot".to_owned() {
            Some(DeploymentGoal::Boot)
        } else if owned == "test".to_owned() {
            Some(DeploymentGoal::Test)
        } else if owned == "dry-activate".to_owned() {
            Some(DeploymentGoal::DryActivate)
        } else {
            None
        }
    }

    /// Like `from_str`, but a malformed token is the construction error it
    /// is: a configuration mistake, fatal before anything is scheduled.
    pub fn parse(s: &str) -> (r: Result<DeploymentGoal, ConstructionError>)
        ensures
            match r {
                Ok(g) => Self::spec_from_token(s@) == Some(g),
                Err(e) => Self::spec_from_token(s@) is None && e
                    == ConstructionError::InvalidGoalToken,
            },
    {
        match Self::from_str(s) {
            Some(g) => Ok(g),
            None => Err(ConstructionError::InvalidGoalToken),
        }
    }

    /// The token that denotes this goal on the command line.
    pub open spec fn spec_token(self) -> Seq<char> {
        match self {
            DeploymentGoal::Push => "push"@,
            DeploymentGoal::Switch => "switch"@,
            DeploymentGoal::Boot => "boot"@,
            DeploymentGoal::Test => "test"@,
            DeploymentGoal::DryActivate => "dry-activate"@,
        }
    }

    pub fn token(&self) -> (r: &'static str)
        ensures
            r@ == self.spec_token(),
    {
        match self {
            DeploymentGoal::Push => "push",
            DeploymentGoal::Switch => "switch",
            DeploymentGoal::Boot => "boot",
            DeploymentGoal::Test => "test",
            DeploymentGoal::DryActivate => "dry-activate",
        }
    }
}

/// Each goal's own token parses back to that goal: the token set and the
/// parser agree.
pub proof fn lemma_token_round_trip(g: DeploymentGoal)
    ensures
        DeploymentGoal::spec_from_token(g.spec_token()) == Some(g),
{
    reveal_strlit("push");
    reveal_strlit("switch");
    reveal_strlit("boot");
    reveal_strlit("test");
    reveal_strlit("dry-activate");
    assert("switch"@ != "push"@) by { assert("switch"@.len() != "push"@.len()); }
    assert("boot"@ != "push"@) by { assert("boot"@[0] != "push"@[0]); }
    assert("boot"@ != "switch"@) by { assert("boot"@.len() != "switch"@.len()); }
    assert("test"@ != "push"@) by { assert("test"@[0] != "push"@[0]); }
    assert("test"@ != "switch"@) by { assert("test"@.len() != "switch"@.len()); }
    assert("test"@ != "boot"@) by { assert("test"@[0] != "boot"@[0]); }
    assert("dry-activate"@ != "push"@) by { assert("dry-activate"@.len() != "push"@.len()); }
    assert("dry-activate"@ != "switch"@) by { assert("dry-activate"@.len() != "switch"@.len()); }
    assert("dry-activate"@ != "boot"@) by { assert("dry-activate"@.len() != "boot"@.len()); }
    assert("dry-activate"@ != "test"@) by { assert("dry-activate"@.len() != "test"@.len()); }
}

} // verus!
