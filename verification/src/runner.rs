//! Process supervision decisions: the exact toolchain invocations, and the
//! rule applied on every tick of the poll loop that watches a running
//! compile for completion or cancellation.
//!
//! The caller spawns the process, reads the cancellation flag and the
//! process state, and hands both to [`poll_step`]; it then carries out the
//! returned decision (kill, keep waiting, or finish).

use vstd::prelude::*;
use vstd::string::*;

verus! {

/// How long the poll loop sleeps between checks, in milliseconds: short
/// enough that cancellation is observed promptly, long enough not to spin.
pub const POLL_INTERVAL_MS: u64 = 50;

/// What the supervising loop observed about the child process on one tick.
#[derive(Debug, Clone, Copy, PartialEq, Eq, Structural)]
pub enum ProcessStatus {
    /// The process has not exited yet.
    StillRunning,
    /// The process exited; `success` is the exit status's success bit.
    Exited { success: bool },
    /// Asking the operating system for the process state failed.
    WaitFailed,
}

/// What the supervising loop must do next.
#[derive(Debug, Clone, Copy, PartialEq, Eq, Structural)]
pub enum PollDecision {
    /// Cancellation was requested: force-terminate the child and finish
    /// with failure.
    KillAndFail,
    /// Nothing happened yet: sleep one interval and poll again.
    KeepWaiting,
    /// The process exited: drain the readers, then finish with the exit
    /// status's success bit.
    Finish { success: bool },
    /// The process state could not be read: finish with failure and report
    /// a wait error.
    FailWaitError,
}

/// Decide one tick of the poll loop.  Cancellation is checked first, so a
/// request is honoured on the next tick even if the process has exited in
/// the meantime.
pub fn poll_step(cancel_requested: bool, status: &ProcessStatus) -> (r: PollDecision)
    ensures
        cancel_requested ==> r is KillAndFail,
        !cancel_requested ==> r == (match *status {
            ProcessStatus::StillRunning => PollDecision::KeepWaiting,
            ProcessStatus::Exited { success } => PollDecision::Finish { success },
            ProcessStatus::WaitFailed => PollDecision::FailWaitError,
        }),
{
    if cancel_requested {
        PollDecision::KillAndFail
    } else {
        match status {
            ProcessStatus::StillRunning => PollDecision::KeepWaiting,
            ProcessStatus::Exited { success } => PollDecision::Finish { success: *success },
            ProcessStatus::WaitFailed => PollDecision::FailWaitError,
        }
    }
}

/// The path of the toolchain entry point below the engine installation
/// root.
pub fn ubt_relative_path() -> (r: String)
    ensures
        r@ == "Engine/Binaries/DotNET/UnrealBuildTool/UnrealBuildTool.dll"@,
{
    String::from_str("Engine/Binaries/DotNET/UnrealBuildTool/UnrealBuildTool.dll")
}

/// The host runtime that executes the toolchain entry point.
pub fn host_runtime() -> (r: String)
    ensures
        r@ == "dotnet"@,
{
    String::from_str("dotnet")
}

/// The argument list of the compile invocation, in the exact order the
/// toolchain expects:
/// `<entry point> <target> Win64 Development -Project=<project> -WaitMutex`.
pub fn compile_args(ubt_path: &str, target: &str, project_path: &str) -> (r: Vec<String>)
    ensures
        r@.len() == 6,
        r@[0]@ == ubt_path@,
        r@[1]@ == target@,
        r@[2]@ == "Win64"@,
        r@[3]@ == "Development"@,
        r@[4]@ == "-Project="@ + project_path@,
        r@[5]@ == "-WaitMutex"@,
{
    let mut args: Vec<String> = Vec::new();
    args.push(ubt_path.to_owned());
    args.push(target.to_owned());
    args.push(String::from_str("Win64"));
    args.push(String::from_str("Development"));
    args.push(String::from_str("-Project=").concat(project_path));
    args.push(String::from_str("-WaitMutex"));
    args
}

/// The argument list of the project-file regeneration invocation, in the
/// exact order the toolchain expects:
/// `<entry point> -ProjectFiles -Project=<project> -Game -Engine`.
pub fn regen_args(ubt_path: &str, project_path: &str) -> (r: Vec<String>)
    ensures
        r@.len() == 5,
        r@[0]@ == ubt_path@,
        r@[1]@ == "-ProjectFiles"@,
        r@[2]@ == "-Project="@ + project_path@,
        r@[3]@ == "-Game"@,
        r@[4]@ == "-Engine"@,
{
    let mut args: Vec<String> = Vec::new();
    args.push(ubt_path.to_owned());
    args.push(String::from_str("-ProjectFiles"));
    args.push(String::from_str("-Project=").concat(project_path));
    args.push(String::from_str("-Game"));
    args.push(String::from_str("-Engine"));
    args
}

} // verus!
