//! Artifact cleanup for a clean rebuild: the fixed, ordered plan of
//! directories and solution files to remove, and the rule that turns the
//! outcome of each removal into success or the first failure.
//!
//! The filesystem work itself is done by the caller, which walks the plan in
//! order, skips entries that do not exist, and records one outcome per entry
//! it processed; removal stops at the first failure and earlier removals are
//! not rolled back.

use vstd::prelude::*;
use vstd::string::*;

verus! {

/// What kind of filesystem entry a cleanup step removes.
#[derive(Debug, Clone, Copy, PartialEq, Eq, Structural)]
pub enum ArtifactKind {
    /// A directory removed recursively.
    Directory,
    /// A single solution file.
    SolutionFile,
}

/// One entry of the cleanup plan: a name relative to the project directory.
#[derive(Debug, Clone)]
pub struct CleanStep {
    pub name: String,
    pub kind: ArtifactKind,
}

/// How one cleanup step went.
#[derive(Debug, Clone, Copy, PartialEq, Eq, Structural)]
pub enum RemovalOutcome {
    /// The path did not exist; nothing was removed and nothing is wrong.
    Missing,
    /// The path existed and was removed.
    Removed,
    /// The path existed and removing it failed.
    FailedToRemove,
}

/// A cleanup step failed; `path` names the entry whose removal failed.
#[derive(Debug, Clone)]
pub struct CleanStepFailed {
    pub path: String,
}

/// All outcomes are free of failures.
pub open spec fn clean_ok(outcomes: Seq<RemovalOutcome>) -> bool {
    forall|i: int| 0 <= i < outcomes.len() ==> !(#[trigger] outcomes[i] is FailedToRemove)
}

/// The ordered cleanup plan for a project: the four transient directories,
/// then the solution file under its project-file-derived name and under its
/// stem-derived name (which coincide for ordinary project files).
pub fn clean_plan(stem: &str) -> (r: Vec<CleanStep>)
    ensures
        r@.len() == 6,
        r@[0].name@ == "Binaries"@ && r@[0].kind is Directory,
        r@[1].name@ == "Intermediate"@ && r@[1].kind is Directory,
        r@[2].name@ == "Saved"@ && r@[2].kind is Directory,
        r@[3].name@ == ".vs"@ && r@[3].kind is Directory,
        r@[4].name@ == stem@ + ".sln"@ && r@[4].kind is SolutionFile,
        r@[5].name@ == stem@ + ".sln"@ && r@[5].kind is SolutionFile,
{
    let mut plan: Vec<CleanStep> = Vec::new();
    plan.push(CleanStep { name: String::from_str("Binaries"), kind: ArtifactKind::Directory });
    plan.push(CleanStep { name: String::from_str("Intermediate"), kind: ArtifactKind::Directory });
    plan.push(CleanStep { name: String::from_str("Saved"), kind: ArtifactKind::Directory });
    plan.push(CleanStep { name: String::from_str(".vs"), kind: ArtifactKind::Directory });
    plan.push(
        CleanStep { name: stem.to_owned().concat(".sln"), kind: ArtifactKind::SolutionFile },
    );
    plan.push(
        CleanStep { name: stem.to_owned().concat(".sln"), kind: ArtifactKind::SolutionFile },
    );
    plan
}

/// The log line announcing the removal of one plan entry, emitted just
/// before the entry is removed (and only for entries that exist).
pub fn removal_log_line(step: &CleanStep) -> (r: String)
    ensures
        step.kind is Directory ==> r@ == "Removing directory: "@ + step.name@,
        step.kind is SolutionFile ==> r@ == "Removing file: "@ + step.name@,
{
    match step.kind {
        ArtifactKind::Directory => String::from_str("Removing directory: ").concat(
            step.name.as_str(),
        ),
        ArtifactKind::SolutionFile => String::from_str("Removing file: ").concat(
            step.name.as_str(),
        ),
    }
}

/// Judge a cleanup run from the per-step outcomes the caller recorded.
///
/// A missing path is never an error: the run succeeds exactly when no step
/// failed, and otherwise reports the first entry whose removal failed.
pub fn clean_result(plan: &Vec<CleanStep>, outcomes: &Vec<RemovalOutcome>) -> (r: Result<
    (),
    CleanStepFailed,
>)
    requires
        outcomes@.len() <= plan@.len(),
    ensures
        r is Ok <==> clean_ok(outcomes@),
        r matches Err(e) ==> exists|i: int|
            0 <= i < outcomes@.len() && (#[trigger] outcomes@[i]) is FailedToRemove && e.path@
                == plan@[i].name@ && (forall|j: int|
                0 <= j < i ==> !(#[trigger] outcomes@[j] is FailedToRemove)),
{
    let mut i: usize = 0;
    while i < outcomes.len()
        invariant
            i <= outcomes@.len(),
            outcomes@.len() <= plan@.len(),
            forall|j: int| 0 <= j < i ==> !(#[trigger] outcomes@[j] is FailedToRemove),
        decreases outcomes@.len() - i,
    {
        if matches!(outcomes[i], RemovalOutcome::FailedToRemove) {
            let path = plan[i].name.clone();
            return Err(CleanStepFailed { path });
        }
        i = i + 1;
    }
    Ok(())
}

/// A cleanup whose paths were all missing or removed succeeds: an entry
/// that does not exist is skipped, never an error.  An error can only come
/// from a removal that failed although the path existed.
pub proof fn lemma_missing_paths_never_fail(outcomes: Seq<RemovalOutcome>)
    requires
        forall|i: int|
            0 <= i < outcomes.len() ==> (#[trigger] outcomes[i] is Missing || outcomes[i]
                is Removed),
    ensures
        clean_ok(outcomes),
{
}

} // verus!
