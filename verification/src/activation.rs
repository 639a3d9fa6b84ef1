//! The outcome of redeeming a secret code.

use vstd::prelude::*;
use vstd::string::*;
use crate::kind::CheatCodeKind;

verus! {

/// What a redemption attempt came to.
#[derive(PartialEq, Eq, Structural, Clone, Copy, Debug)]
pub enum CheatCodeActivationResult {
    /// The text is no ability's secret code.
    NotFound,
    /// The text is the secret code of this ability, which is now activated.
    Activated(CheatCodeKind),
    /// The text is the secret code of this ability, which was activated before.
    AlreadyActivated(CheatCodeKind),
}

impl CheatCodeActivationResult {
    /// The message shown for an outcome.
    pub open spec fn spec_repr(self) -> Seq<char> {
        match self {
            CheatCodeActivationResult::Activated(kind) => "["@ + kind.spec_name()
                + "] cheat code successfully activated"@,
            CheatCodeActivationResult::AlreadyActivated(kind) => "["@ + kind.spec_name()
                + "] already activated"@,
            CheatCodeActivationResult::NotFound => "cheat code not recognized by the system"@,
        }
    }

    /// The message shown for an outcome.
    pub fn repr(&self) -> (message: String)
        ensures
            message@ == self.spec_repr(),
    {
        match self {
            CheatCodeActivationResult::Activated(kind) => {
                String::from_str("[").concat(kind.name()).concat(
                    "] cheat code successfully activated",
                )
            },
            CheatCodeActivationResult::AlreadyActivated(kind) => {
                String::from_str("[").concat(kind.name()).concat("] already activated")
            },
            CheatCodeActivationResult::NotFound => {
                "cheat code not recognized by the system".to_string()
            },
        }
    }
}

} // verus!
