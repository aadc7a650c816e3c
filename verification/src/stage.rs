//! How far bring-up has come.

use vstd::prelude::*;

verus! {

/// The stages of bring-up, in the order in which they are passed through.
/// `Transmitting` is the last one and is never left.
#[derive(Clone, Copy, Debug, PartialEq, Eq, Structural)]
pub enum Stage {
    Uninitialized,
    ClockConfigured,
    ResourcesPartitioned,
    UartReady,
    Transmitting,
}

impl Stage {
    /// Position of the stage in the order of bring-up.
    pub open spec fn rank(self) -> nat {
        match self {
            Stage::Uninitialized => 0,
            Stage::ClockConfigured => 1,
            Stage::ResourcesPartitioned => 2,
            Stage::UartReady => 3,
            Stage::Transmitting => 4,
        }
    }

    /// The stage that follows; `Transmitting` follows itself.
    pub open spec fn successor(self) -> Stage {
        match self {
            Stage::Uninitialized => Stage::ClockConfigured,
            Stage::ClockConfigured => Stage::ResourcesPartitioned,
            Stage::ResourcesPartitioned => Stage::UartReady,
            Stage::UartReady => Stage::Transmitting,
            Stage::Transmitting => Stage::Transmitting,
        }
    }

    /// The stage that follows; `Transmitting` follows itself.
    #[verifier::when_used_as_spec(successor)]
    pub fn next(self) -> (stage: Stage)
        ensures
            stage == self.successor(),
    {
        match self {
            Stage::Uninitialized => Stage::ClockConfigured,
            Stage::ClockConfigured => Stage::ResourcesPartitioned,
            Stage::ResourcesPartitioned => Stage::UartReady,
            Stage::UartReady => Stage::Transmitting,
            Stage::Transmitting => Stage::Transmitting,
        }
    }
}

/// Bring-up only moves forward: each stage but the last is followed by the
/// next in order, and the last by itself.
pub proof fn lemma_stages_only_advance(stage: Stage)
    ensures
        stage.successor().rank() == if stage is Transmitting {
            stage.rank()
        } else {
            stage.rank() + 1
        },
{
}

} // verus!
