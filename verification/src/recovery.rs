//! What to do after an attempt to open a file, or to create it.
//!
//! The caller touches the file system; this module only decides. The caller
//! starts at [`Stage::Opening`], tries the stage's operation, reports how it
//! went and does what [`decide`] answers. On [`Decision::Create`] it goes on
//! to [`Stage::Creating`] and asks again.

use vstd::prelude::*;

verus! {

/// How strictly a failure to open is taken.
#[derive(Clone, Copy, Debug, PartialEq, Eq, Structural)]
pub enum Policy {
    /// Any failure ends the attempt.
    GiveUp,
    /// A file that is not there is created; any other failure ends the
    /// attempt.
    CreateIfMissing,
}

/// The operation that was tried.
#[derive(Clone, Copy, Debug, PartialEq, Eq, Structural)]
pub enum Stage {
    Opening,
    Creating,
}

/// How the operation went, as far as the decision depends on it.
#[derive(Clone, Copy, Debug, PartialEq, Eq, Structural)]
pub enum Outcome {
    /// The file is at hand.
    Done,
    /// The operation failed because the file was not found.
    NotFound,
    /// The operation failed for another reason.
    Failed,
}

/// What the caller does next.
#[derive(Clone, Copy, Debug, PartialEq, Eq, Structural)]
pub enum Decision {
    /// Go on with the file.
    Proceed,
    /// Create the file.
    Create,
    /// Stop, and report a problem with the given stage.
    Abort(Stage),
}

/// The decision for each policy, stage and outcome.
pub open spec fn spec_decide(policy: Policy, stage: Stage, outcome: Outcome) -> Decision {
    if outcome == Outcome::Done {
        Decision::Proceed
    } else if policy == Policy::CreateIfMissing && stage == Stage::Opening && outcome
        == Outcome::NotFound {
        Decision::Create
    } else {
        Decision::Abort(stage)
    }
}

/// Decides what follows an attempt: success goes on, a missing file is
/// created where the policy allows it and opening was the stage, and every
/// other failure stops with the stage that failed.
pub fn decide(policy: Policy, stage: Stage, outcome: Outcome) -> (d: Decision)
    ensures
        d == spec_decide(policy, stage, outcome),
{
    match outcome {
        Outcome::Done => Decision::Proceed,
        Outcome::NotFound => match (policy, stage) {
            (Policy::CreateIfMissing, Stage::Opening) => Decision::Create,
            _ => Decision::Abort(stage),
        },
        Outcome::Failed => Decision::Abort(stage),
    }
}

/// Creating is never asked for twice: once the caller is creating, the
/// decision is to go on or to stop.
pub proof fn lemma_create_at_most_once(policy: Policy, outcome: Outcome)
    ensures
        spec_decide(policy, Stage::Creating, outcome) != Decision::Create,
{
}

/// Under `GiveUp` nothing is ever created.
pub proof fn lemma_give_up_never_creates(stage: Stage, outcome: Outcome)
    ensures
        spec_decide(Policy::GiveUp, stage, outcome) != Decision::Create,
{
}

} // verus!
