//! The build orchestrator: a request is checked synchronously, then a phase
//! state machine sequences the build — optional cleanup, optional metadata
//! regeneration, then the compile — with a cancellation checkpoint before
//! every phase and on every tick of the compile poll loop.
//!
//! The machine is pure: the caller performs the phase that the current
//! state names (clean, regenerate, spawn, poll, kill), then reports what
//! happened as a [`BuildEvent`].  Each step returns the log lines to emit,
//! and appends them to a ghost log, so lines already streamed are never
//! reordered or dropped by a later step.

use vstd::prelude::*;
use vstd::string::*;

use crate::BuildMode;
use crate::resolver::{
    AmbiguousTargets, expected_target_name, is_target_name, multiple_target_names,
    no_target_names, override_active, resolve_target, unique_target_name,
};
use crate::runner::{ProcessStatus, compile_args, host_runtime, regen_args};
use crate::text::{strictly_sorted, views};

verus! {

/// Where a build stands.  `PreClean`, `PreRegen` and `PreSpawn` are the
/// cancellation checkpoints before the respective phases; a clean rebuild
/// starts at `PreClean`, a standard build at `PreSpawn`.
#[derive(Debug, Clone, Copy, PartialEq, Eq, Structural)]
pub enum BuildPhase {
    /// Checkpoint before artifact cleanup.
    PreClean,
    /// Artifact cleanup is running (not interruptible mid-removal).
    Cleaning,
    /// Checkpoint before project-file regeneration.
    PreRegen,
    /// The regeneration invocation is running to completion.
    Regenerating,
    /// Checkpoint before the compile process is spawned.
    PreSpawn,
    /// The compile process is being spawned.
    Spawning,
    /// The compile process runs; the poll loop watches it.
    Compiling,
    /// Cancellation was observed mid-compile; the child is being killed.
    Killing,
    /// Terminal: the build ended, successfully or not.
    Finished { success: bool },
}

/// What the caller reports back to the machine.
#[derive(Debug, Clone, Copy, PartialEq, Eq, Structural)]
pub enum BuildEvent {
    /// Answer at a checkpoint: whether cancellation has been requested.
    CancelCheck { requested: bool },
    /// Artifact cleanup ended; `ok` tells whether every step succeeded.
    CleanFinished { ok: bool },
    /// The regeneration invocation ended; `ok` is its exit success bit.
    RegenFinished { ok: bool },
    /// Spawning the compile process ended; `ok` tells whether it started.
    SpawnFinished { ok: bool },
    /// One tick of the compile poll loop: the cancellation flag and the
    /// observed process state.
    PollTick { cancel_requested: bool, status: ProcessStatus },
    /// The child process has been killed after a cancellation.
    Killed,
}

/// The phase a build starts in.
pub open spec fn initial_phase(mode: BuildMode) -> BuildPhase {
    match mode {
        BuildMode::CleanRebuild => BuildPhase::PreClean,
        BuildMode::Standard => BuildPhase::PreSpawn,
    }
}

/// The transition relation of the phase machine.  An event that does not
/// belong to the current phase changes nothing, and a finished build stays
/// finished.
pub open spec fn next_phase(p: BuildPhase, e: BuildEvent) -> BuildPhase {
    match (p, e) {
        (BuildPhase::PreClean, BuildEvent::CancelCheck { requested }) => if requested {
            BuildPhase::Finished { success: false }
        } else {
            BuildPhase::Cleaning
        },
        (BuildPhase::Cleaning, BuildEvent::CleanFinished { ok }) => if ok {
            BuildPhase::PreRegen
        } else {
            BuildPhase::Finished { success: false }
        },
        (BuildPhase::PreRegen, BuildEvent::CancelCheck { requested }) => if requested {
            BuildPhase::Finished { success: false }
        } else {
            BuildPhase::Regenerating
        },
        (BuildPhase::Regenerating, BuildEvent::RegenFinished { ok }) => if ok {
            BuildPhase::PreSpawn
        } else {
            BuildPhase::Finished { success: false }
        },
        (BuildPhase::PreSpawn, BuildEvent::CancelCheck { requested }) => if requested {
            BuildPhase::Finished { success: false }
        } else {
            BuildPhase::Spawning
        },
        (BuildPhase::Spawning, BuildEvent::SpawnFinished { ok }) => if ok {
            BuildPhase::Compiling
        } else {
            BuildPhase::Finished { success: false }
        },
        (BuildPhase::Compiling, BuildEvent::PollTick { cancel_requested, status }) => if cancel_requested {
            BuildPhase::Killing
        } else {
            match status {
                ProcessStatus::StillRunning => BuildPhase::Compiling,
                ProcessStatus::Exited { success } => BuildPhase::Finished { success },
                ProcessStatus::WaitFailed => BuildPhase::Finished { success: false },
            }
        },
        (BuildPhase::Killing, BuildEvent::Killed) => BuildPhase::Finished { success: false },
        (_, _) => p,
    }
}

/// The phase after a whole sequence of events.
pub open spec fn run_phases(p: BuildPhase, evs: Seq<BuildEvent>) -> BuildPhase
    decreases evs.len(),
{
    if evs.len() == 0 {
        p
    } else {
        run_phases(next_phase(p, evs[0]), evs.skip(1))
    }
}

/// A state in which no compile process exists and, short of a checkpoint
/// answered with "not cancelled", none will: every phase before `Spawning`,
/// and the failed terminal state.
pub open spec fn spawn_free(p: BuildPhase) -> bool {
    match p {
        BuildPhase::PreClean => true,
        BuildPhase::Cleaning => true,
        BuildPhase::PreRegen => true,
        BuildPhase::Regenerating => true,
        BuildPhase::PreSpawn => true,
        BuildPhase::Finished { success } => !success,
        _ => false,
    }
}

/// Every checkpoint answer in `evs` reports cancellation.
pub open spec fn all_cancel_checks_positive(evs: Seq<BuildEvent>) -> bool {
    forall|i: int|
        0 <= i < evs.len() ==> match #[trigger] evs[i] {
            BuildEvent::CancelCheck { requested } => requested,
            _ => true,
        }
}

/// Cancellation requested before the compile phase starts prevents the
/// process from ever being spawned.  Once cancellation is requested, every
/// later checkpoint answers "cancelled"; a machine that has not passed the
/// `PreSpawn` checkpoint then never reaches `Spawning` or `Compiling`, and
/// the only terminal state it can reach is `Finished` with failure.
pub proof fn lemma_cancel_before_compile_blocks_spawn(p: BuildPhase, evs: Seq<BuildEvent>)
    requires
        spawn_free(p),
        all_cancel_checks_positive(evs),
    ensures
        spawn_free(run_phases(p, evs)),
    decreases evs.len(),
{
    if evs.len() > 0 {
        assert(spawn_free(next_phase(p, evs[0])));
        assert forall|i: int|
            0 <= i < evs.skip(1).len() implies match #[trigger] evs.skip(1)[i] {
            BuildEvent::CancelCheck { requested } => requested,
            _ => true,
        } by {
            assert(evs.skip(1)[i] == evs[i + 1]);
        }
        lemma_cancel_before_compile_blocks_spawn(next_phase(p, evs[0]), evs.skip(1));
    }
}

/// Cancellation observed after the compile process started leads to forced
/// termination: the poll tick moves the machine to `Killing`, whatever the
/// process was doing, and the kill confirmation ends the build as a
/// failure.
pub proof fn lemma_cancel_during_compile_kills(status: ProcessStatus)
    ensures
        next_phase(
            BuildPhase::Compiling,
            BuildEvent::PollTick { cancel_requested: true, status },
        ) == BuildPhase::Killing,
        next_phase(BuildPhase::Killing, BuildEvent::Killed) == (BuildPhase::Finished {
            success: false,
        }),
{
}

/// Lines already streamed are preserved: whatever a step appends, the log
/// so far stays an unchanged prefix, in its original order.
pub proof fn lemma_streamed_lines_are_preserved(
    before: Seq<Seq<char>>,
    emitted: Seq<Seq<char>>,
)
    ensures
        (before + emitted).take(before.len() as int) == before,
        forall|i: int| 0 <= i < before.len() ==> (before + emitted)[i] == before[i],
{
    assert((before + emitted).take(before.len() as int) =~= before);
}

/// The phase state machine of one submitted build, with the ghost log of
/// every line emitted so far.
pub struct BuildMachine {
    pub mode: BuildMode,
    pub phase: BuildPhase,
    pub log: Ghost<Seq<Seq<char>>>,
}

impl BuildMachine {
    /// A machine for a fresh build: at the first checkpoint of its mode,
    /// with an empty log.
    pub fn new(mode: BuildMode) -> (m: BuildMachine)
        ensures
            m.mode == mode,
            m.phase == initial_phase(mode),
            m.log@ == Seq::<Seq<char>>::empty(),
    {
        let phase = match mode {
            BuildMode::CleanRebuild => BuildPhase::PreClean,
            BuildMode::Standard => BuildPhase::PreSpawn,
        };
        BuildMachine { mode, phase, log: Ghost(Seq::empty()) }
    }

    /// The current phase.
    pub fn phase(&self) -> (p: BuildPhase)
        ensures
            p == self.phase,
    {
        self.phase
    }

    /// Feed one event to the machine.  The phase advances along
    /// [`next_phase`]; the returned lines are to be streamed to the caller,
    /// and are appended to the ghost log — nothing already in it moves.
    ///
    /// Every phase that begins work announces it with at least one line,
    /// and every cancellation and failure is explained with one, so the
    /// phase sequence can be reconstructed from the log stream alone.
    pub fn step(&mut self, event: BuildEvent) -> (lines: Vec<String>)
        ensures
            final(self).mode == old(self).mode,
            final(self).phase == next_phase(old(self).phase, event),
            final(self).log@ == old(self).log@ + views(lines@),
            next_phase(old(self).phase, event) != old(self).phase ==> lines@.len() >= 1,
            old(self).phase is PreClean && event == (BuildEvent::CancelCheck { requested: true })
                ==> lines@.len() == 1 && lines@[0]@ == "Clean rebuild cancelled before starting."@,
            old(self).phase is PreRegen && event == (BuildEvent::CancelCheck { requested: true })
                ==> lines@.len() == 1 && lines@[0]@
                == "Clean rebuild cancelled before project file generation."@,
            old(self).phase is PreSpawn && event == (BuildEvent::CancelCheck { requested: true })
                ==> lines@.len() == 1 && lines@[0]@
                == "Build cancelled before the compiler was launched."@,
            old(self).phase is Killing && event is Killed ==> lines@.len() == 1 && lines@[0]@
                == "Build process killed."@,
    {
        let mut lines: Vec<String> = Vec::new();
        let next = match (self.phase, event) {
            (BuildPhase::PreClean, BuildEvent::CancelCheck { requested }) => {
                if requested {
                    lines.push(String::from_str("Clean rebuild cancelled before starting."));
                    BuildPhase::Finished { success: false }
                } else {
                    lines.push(
                        String::from_str("Clean rebuild: removing temporary project files..."),
                    );
                    BuildPhase::Cleaning
                }
            },
            (BuildPhase::Cleaning, BuildEvent::CleanFinished { ok }) => {
                if ok {
                    lines.push(String::from_str("Clean rebuild: temporary project files removed."));
                    BuildPhase::PreRegen
                } else {
                    lines.push(String::from_str("Clean rebuild failed while removing files."));
                    BuildPhase::Finished { success: false }
                }
            },
            (BuildPhase::PreRegen, BuildEvent::CancelCheck { requested }) => {
                if requested {
                    lines.push(
                        String::from_str(
                            "Clean rebuild cancelled before project file generation.",
                        ),
                    );
                    BuildPhase::Finished { success: false }
                } else {
                    lines.push(String::from_str("Clean rebuild: regenerating project files..."));
                    BuildPhase::Regenerating
                }
            },
            (BuildPhase::Regenerating, BuildEvent::RegenFinished { ok }) => {
                if ok {
                    lines.push(String::from_str("Clean rebuild: project files regenerated."));
                    BuildPhase::PreSpawn
                } else {
                    lines.push(String::from_str("Project file generation failed."));
                    BuildPhase::Finished { success: false }
                }
            },
            (BuildPhase::PreSpawn, BuildEvent::CancelCheck { requested }) => {
                if requested {
                    lines.push(
                        String::from_str("Build cancelled before the compiler was launched."),
                    );
                    BuildPhase::Finished { success: false }
                } else {
                    lines.push(String::from_str("Launching compiler..."));
                    BuildPhase::Spawning
                }
            },
            (BuildPhase::Spawning, BuildEvent::SpawnFinished { ok }) => {
                if ok {
                    lines.push(String::from_str("Compiler started."));
                    BuildPhase::Compiling
                } else {
                    lines.push(String::from_str("Failed to spawn dotnet."));
                    BuildPhase::Finished { success: false }
                }
            },
            (BuildPhase::Compiling, BuildEvent::PollTick { cancel_requested, status }) => {
                if cancel_requested {
                    lines.push(
                        String::from_str("Cancellation requested; terminating build process..."),
                    );
                    BuildPhase::Killing
                } else {
                    match status {
                        ProcessStatus::StillRunning => BuildPhase::Compiling,
                        ProcessStatus::Exited { success } => {
                            if success {
                                lines.push(String::from_str("Build completed successfully."));
                            } else {
                                lines.push(String::from_str("Build finished with errors."));
                            }
                            BuildPhase::Finished { success }
                        },
                        ProcessStatus::WaitFailed => {
                            lines.push(String::from_str("Error waiting for process."));
                            BuildPhase::Finished { success: false }
                        },
                    }
                }
            },
            (BuildPhase::Killing, BuildEvent::Killed) => {
                lines.push(String::from_str("Build process killed."));
                BuildPhase::Finished { success: false }
            },
            (_, _) => self.phase,
        };
        proof {
            assert(next == next_phase(self.phase, event));
        }
        self.phase = next;
        self.log = Ghost(self.log@ + views(lines@));
        lines
    }
}

/// A build request as submitted by the caller; immutable once submitted.
#[derive(Debug, Clone)]
pub struct BuildRequest {
    /// Path of the project file.
    pub project_path: String,
    /// Root of the engine installation.
    pub engine_root: String,
    /// Compile only, or clean and regenerate first.
    pub mode: BuildMode,
    /// Manual target override; used verbatim when non-blank.
    pub target_override: Option<String>,
}

/// Why a submission was rejected before any background work started.
#[derive(Debug, Clone)]
pub enum SubmitError {
    /// The toolchain entry point was not found at its well-known path
    /// under the engine root.
    ToolNotFound { path: String },
    /// Several editor targets were discovered and none matches the
    /// convention-derived name; `candidates` lists them all, sorted and
    /// deduplicated, so the caller can ask for an explicit choice.
    AmbiguousTargets { candidates: Vec<String> },
}

/// Everything a background task needs to run one build: the resolved
/// target, the exact invocations, the announcement line, and the machine
/// at its first checkpoint.
pub struct BuildPlan {
    /// The resolved target name.
    pub target: String,
    /// The program that runs the toolchain entry point.
    pub program: String,
    /// Arguments of the compile invocation.
    pub compile_args: Vec<String>,
    /// Arguments of the regeneration invocation (used in a clean rebuild).
    pub regen_args: Vec<String>,
    /// The line announcing the build, emitted before any phase starts.
    pub announce: String,
    /// The phase machine, at the first checkpoint of the requested mode.
    pub machine: BuildMachine,
}

/// The command line as shown to the user when the build starts.
pub open spec fn command_display(ubt_path: Seq<char>, target: Seq<char>, project_path: Seq<char>) -> Seq<char> {
    "dotnet \""@ + ubt_path + "\" "@ + target + " Win64 Development -Project=\""@ + project_path
        + "\" -WaitMutex"@
}

/// The announcement line for a build of the given mode.
pub open spec fn announce_line(
    mode: BuildMode,
    ubt_path: Seq<char>,
    target: Seq<char>,
    project_path: Seq<char>,
) -> Seq<char> {
    match mode {
        BuildMode::Standard => "Running: "@ + command_display(ubt_path, target, project_path),
        BuildMode::CleanRebuild => "Running: Clean Rebuild -> clean temp files, regenerate project files, then: "@
            + command_display(ubt_path, target, project_path),
    }
}

/// Build the announcement line.
fn make_announce(mode: BuildMode, ubt_path: &str, target: &str, project_path: &str) -> (r: String)
    ensures
        r@ == announce_line(mode, ubt_path@, target@, project_path@),
{
    let prefix = match mode {
        BuildMode::Standard => String::from_str("Running: "),
        BuildMode::CleanRebuild => String::from_str(
            "Running: Clean Rebuild -> clean temp files, regenerate project files, then: ",
        ),
    };
    let r = prefix
        .concat("dotnet \"")
        .concat(ubt_path)
        .concat("\" ")
        .concat(target)
        .concat(" Win64 Development -Project=\"")
        .concat(project_path)
        .concat("\" -WaitMutex");
    proof {
        assert(r@ =~= announce_line(mode, ubt_path@, target@, project_path@));
    }
    r
}

/// Check a request and lay out the build.
///
/// The check is synchronous and happens before any background work: if the
/// toolchain entry point is missing the submission fails at once with
/// [`SubmitError::ToolNotFound`] and nothing is started, and an ambiguous
/// target resolution fails the submission with the candidate list.
/// Otherwise the returned plan holds the resolved target (under the same
/// decision table as [`resolve_target`]), the exact compile and
/// regeneration invocations, and a machine at the first checkpoint of the
/// requested mode with nothing logged yet.
pub fn prepare_build(
    request: &BuildRequest,
    stem: &str,
    ubt_path: &str,
    ubt_exists: bool,
    source_files: &Vec<String>,
) -> (r: Result<BuildPlan, SubmitError>)
    ensures
        !ubt_exists ==> (r matches Err(e) && e matches SubmitError::ToolNotFound { path }
            && path@ == ubt_path@),
        ubt_exists && override_active(request.target_override) ==> (r matches Ok(p)
            && Some(p.target) == request.target_override),
        ubt_exists && !override_active(request.target_override) && no_target_names(
            views(source_files@),
        ) ==> (r matches Ok(p) && p.target@ == expected_target_name(stem@)),
        ubt_exists && !override_active(request.target_override) && (exists|u: Seq<char>|
            unique_target_name(views(source_files@), u)) ==> (r matches Ok(p)
            && unique_target_name(views(source_files@), p.target@)),
        ubt_exists && !override_active(request.target_override) && multiple_target_names(
            views(source_files@),
        ) && is_target_name(views(source_files@), expected_target_name(stem@)) ==> (r matches Ok(p)
            && p.target@ == expected_target_name(stem@)),
        ubt_exists && !override_active(request.target_override) && multiple_target_names(
            views(source_files@),
        ) && !is_target_name(views(source_files@), expected_target_name(stem@)) ==> (r matches Err(
            e,
        ) && e matches SubmitError::AmbiguousTargets { candidates } && strictly_sorted(
            views(candidates@),
        ) && (forall|t: Seq<char>|
            views(candidates@).contains(t) <==> is_target_name(views(source_files@), t))),
        r matches Ok(p) ==> {
            &&& p.program@ == "dotnet"@
            &&& p.compile_args@.len() == 6
            &&& p.compile_args@[0]@ == ubt_path@
            &&& p.compile_args@[1]@ == p.target@
            &&& p.compile_args@[2]@ == "Win64"@
            &&& p.compile_args@[3]@ == "Development"@
            &&& p.compile_args@[4]@ == "-Project="@ + request.project_path@
            &&& p.compile_args@[5]@ == "-WaitMutex"@
            &&& p.regen_args@.len() == 5
            &&& p.regen_args@[0]@ == ubt_path@
            &&& p.regen_args@[1]@ == "-ProjectFiles"@
            &&& p.regen_args@[2]@ == "-Project="@ + request.project_path@
            &&& p.regen_args@[3]@ == "-Game"@
            &&& p.regen_args@[4]@ == "-Engine"@
            &&& p.announce@ == announce_line(request.mode, ubt_path@, p.target@, request.project_path@)
            &&& p.machine.mode == request.mode
            &&& p.machine.phase == initial_phase(request.mode)
            &&& p.machine.log@.len() == 0
        },
{
    if !ubt_exists {
        return Err(SubmitError::ToolNotFound { path: ubt_path.to_owned() });
    }
    let target = match resolve_target(stem, &request.target_override, source_files) {
        Ok(t) => t,
        Err(AmbiguousTargets { candidates }) => {
            return Err(SubmitError::AmbiguousTargets { candidates });
        },
    };
    let announce = make_announce(request.mode, ubt_path, target.as_str(), request.project_path.as_str());
    let plan = BuildPlan {
        program: host_runtime(),
        compile_args: compile_args(ubt_path, target.as_str(), request.project_path.as_str()),
        regen_args: regen_args(ubt_path, request.project_path.as_str()),
        announce,
        machine: BuildMachine::new(request.mode),
        target,
    };
    Ok(plan)
}

} // verus!
