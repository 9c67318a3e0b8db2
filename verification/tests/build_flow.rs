use stellar::handle::BuildHandle;
use stellar::orchestrator::{
    BuildEvent, BuildMachine, BuildPhase, BuildRequest, SubmitError, prepare_build,
};
use stellar::runner::{ProcessStatus, PollDecision, compile_args, poll_step, regen_args};
use stellar::BuildMode;

fn request(mode: BuildMode, target_override: Option<&str>) -> BuildRequest {
    BuildRequest {
        project_path: "C:/Projects/Foo/Foo.uproject".to_string(),
        engine_root: "C:/UE".to_string(),
        mode,
        target_override: target_override.map(|s| s.to_string()),
    }
}

const UBT: &str = "C:/UE/Engine/Binaries/DotNET/UnrealBuildTool/UnrealBuildTool.dll";

#[test]
fn missing_tool_fails_before_anything_starts() {
    let r = prepare_build(&request(BuildMode::Standard, None), "Foo", UBT, false, &Vec::new());
    match r {
        Err(SubmitError::ToolNotFound { path }) => assert_eq!(path, UBT),
        _ => panic!("expected ToolNotFound"),
    }
}

#[test]
fn ambiguous_targets_fail_the_submission() {
    let fs: Vec<String> =
        vec!["BazEditor.Target.cs".to_string(), "QuxEditor.Target.cs".to_string()];
    let r = prepare_build(&request(BuildMode::Standard, None), "Foo", UBT, true, &fs);
    match r {
        Err(SubmitError::AmbiguousTargets { candidates }) => {
            assert_eq!(candidates, vec!["BazEditor".to_string(), "QuxEditor".to_string()]);
        }
        _ => panic!("expected AmbiguousTargets"),
    }
}

#[test]
fn plan_holds_the_exact_invocations() {
    let r = prepare_build(&request(BuildMode::Standard, None), "Foo", UBT, true, &Vec::new());
    let plan = r.ok().expect("submission should succeed");
    assert_eq!(plan.target, "FooEditor");
    assert_eq!(plan.program, "dotnet");
    assert_eq!(
        plan.compile_args,
        vec![
            UBT.to_string(),
            "FooEditor".to_string(),
            "Win64".to_string(),
            "Development".to_string(),
            "-Project=C:/Projects/Foo/Foo.uproject".to_string(),
            "-WaitMutex".to_string(),
        ]
    );
    assert_eq!(
        plan.regen_args,
        vec![
            UBT.to_string(),
            "-ProjectFiles".to_string(),
            "-Project=C:/Projects/Foo/Foo.uproject".to_string(),
            "-Game".to_string(),
            "-Engine".to_string(),
        ]
    );
    assert_eq!(
        plan.announce,
        format!(
            "Running: dotnet \"{}\" FooEditor Win64 Development -Project=\"C:/Projects/Foo/Foo.uproject\" -WaitMutex",
            UBT
        )
    );
    assert_eq!(plan.machine.phase(), BuildPhase::PreSpawn);
}

#[test]
fn standard_build_success_runs_to_finished_true() {
    // Project Foo.uproject, no target files, no override, Standard mode,
    // process exits successfully.
    let fs: Vec<String> = Vec::new();
    let r = prepare_build(&request(BuildMode::Standard, None), "Foo", UBT, true, &fs);
    let plan = r.ok().expect("submission should succeed");
    assert_eq!(plan.target, "FooEditor");

    let mut machine = plan.machine;
    let mut handle = BuildHandle::new();
    machine.step(BuildEvent::CancelCheck { requested: handle.is_cancel_requested() });
    assert_eq!(machine.phase(), BuildPhase::Spawning);
    machine.step(BuildEvent::SpawnFinished { ok: true });
    assert_eq!(machine.phase(), BuildPhase::Compiling);
    machine.step(BuildEvent::PollTick {
        cancel_requested: false,
        status: ProcessStatus::StillRunning,
    });
    assert_eq!(machine.phase(), BuildPhase::Compiling);
    machine.step(BuildEvent::PollTick {
        cancel_requested: false,
        status: ProcessStatus::Exited { success: true },
    });
    match machine.phase() {
        BuildPhase::Finished { success } => {
            handle.mark_finished(success);
        }
        other => panic!("expected Finished, got {:?}", other),
    }
    assert_eq!(handle.try_finished(), Some(true));
}

#[test]
fn cancel_before_compile_prevents_spawning() {
    let mut machine = BuildMachine::new(BuildMode::Standard);
    let mut handle = BuildHandle::new();
    handle.cancel();
    let lines =
        machine.step(BuildEvent::CancelCheck { requested: handle.is_cancel_requested() });
    assert_eq!(machine.phase(), BuildPhase::Finished { success: false });
    assert!(!lines.is_empty());
    handle.mark_finished(false);
    assert_eq!(handle.try_finished(), Some(false));
}

#[test]
fn cancel_during_compile_kills_and_preserves_lines() {
    let mut machine = BuildMachine::new(BuildMode::Standard);
    let mut streamed: Vec<String> = Vec::new();
    streamed.extend(machine.step(BuildEvent::CancelCheck { requested: false }));
    streamed.extend(machine.step(BuildEvent::SpawnFinished { ok: true }));
    let before_cancel = streamed.clone();

    streamed.extend(machine.step(BuildEvent::PollTick {
        cancel_requested: true,
        status: ProcessStatus::StillRunning,
    }));
    assert_eq!(machine.phase(), BuildPhase::Killing);
    let kill_lines = machine.step(BuildEvent::Killed);
    streamed.extend(kill_lines.clone());
    assert_eq!(machine.phase(), BuildPhase::Finished { success: false });
    assert_eq!(kill_lines, vec!["Build process killed.".to_string()]);

    // Everything streamed before the cancellation is still there, in order.
    assert_eq!(&streamed[..before_cancel.len()], &before_cancel[..]);
}

#[test]
fn cancel_between_clean_and_regeneration_skips_regeneration() {
    // Clean rebuild; cancellation is requested while cleanup runs, so the
    // cleanup completes but the next checkpoint stops the build.
    let mut machine = BuildMachine::new(BuildMode::CleanRebuild);
    let mut handle = BuildHandle::new();
    assert_eq!(machine.phase(), BuildPhase::PreClean);
    machine.step(BuildEvent::CancelCheck { requested: handle.is_cancel_requested() });
    assert_eq!(machine.phase(), BuildPhase::Cleaning);
    handle.cancel();
    machine.step(BuildEvent::CleanFinished { ok: true });
    assert_eq!(machine.phase(), BuildPhase::PreRegen);
    machine.step(BuildEvent::CancelCheck { requested: handle.is_cancel_requested() });
    assert_eq!(machine.phase(), BuildPhase::Finished { success: false });
    handle.mark_finished(false);
    assert_eq!(handle.try_finished(), Some(false));
}

#[test]
fn cancel_is_idempotent() {
    let mut handle = BuildHandle::new();
    handle.cancel();
    let outcome_once = handle.try_finished();
    assert!(handle.is_cancel_requested());
    handle.cancel();
    handle.cancel();
    assert!(handle.is_cancel_requested());
    assert_eq!(handle.try_finished(), outcome_once);
}

#[test]
fn clean_rebuild_full_sequence() {
    let mut machine = BuildMachine::new(BuildMode::CleanRebuild);
    machine.step(BuildEvent::CancelCheck { requested: false });
    assert_eq!(machine.phase(), BuildPhase::Cleaning);
    machine.step(BuildEvent::CleanFinished { ok: true });
    machine.step(BuildEvent::CancelCheck { requested: false });
    assert_eq!(machine.phase(), BuildPhase::Regenerating);
    machine.step(BuildEvent::RegenFinished { ok: true });
    machine.step(BuildEvent::CancelCheck { requested: false });
    assert_eq!(machine.phase(), BuildPhase::Spawning);
    machine.step(BuildEvent::SpawnFinished { ok: true });
    machine.step(BuildEvent::PollTick {
        cancel_requested: false,
        status: ProcessStatus::Exited { success: false },
    });
    assert_eq!(machine.phase(), BuildPhase::Finished { success: false });
}

#[test]
fn failed_regeneration_aborts_the_sequence() {
    let mut machine = BuildMachine::new(BuildMode::CleanRebuild);
    machine.step(BuildEvent::CancelCheck { requested: false });
    machine.step(BuildEvent::CleanFinished { ok: true });
    machine.step(BuildEvent::CancelCheck { requested: false });
    machine.step(BuildEvent::RegenFinished { ok: false });
    assert_eq!(machine.phase(), BuildPhase::Finished { success: false });
}

#[test]
fn failed_spawn_finishes_with_failure() {
    let mut machine = BuildMachine::new(BuildMode::Standard);
    machine.step(BuildEvent::CancelCheck { requested: false });
    machine.step(BuildEvent::SpawnFinished { ok: false });
    assert_eq!(machine.phase(), BuildPhase::Finished { success: false });
}

#[test]
fn poll_decisions_follow_the_table() {
    assert_eq!(poll_step(true, &ProcessStatus::StillRunning), PollDecision::KillAndFail);
    assert_eq!(
        poll_step(true, &ProcessStatus::Exited { success: true }),
        PollDecision::KillAndFail
    );
    assert_eq!(poll_step(false, &ProcessStatus::StillRunning), PollDecision::KeepWaiting);
    assert_eq!(
        poll_step(false, &ProcessStatus::Exited { success: true }),
        PollDecision::Finish { success: true }
    );
    assert_eq!(
        poll_step(false, &ProcessStatus::Exited { success: false }),
        PollDecision::Finish { success: false }
    );
    assert_eq!(poll_step(false, &ProcessStatus::WaitFailed), PollDecision::FailWaitError);
}

#[test]
fn invocation_builders_preserve_argument_order() {
    let c = compile_args("ubt.dll", "FooEditor", "p.uproject");
    assert_eq!(
        c,
        vec![
            "ubt.dll".to_string(),
            "FooEditor".to_string(),
            "Win64".to_string(),
            "Development".to_string(),
            "-Project=p.uproject".to_string(),
            "-WaitMutex".to_string(),
        ]
    );
    let g = regen_args("ubt.dll", "p.uproject");
    assert_eq!(
        g,
        vec![
            "ubt.dll".to_string(),
            "-ProjectFiles".to_string(),
            "-Project=p.uproject".to_string(),
            "-Game".to_string(),
            "-Engine".to_string(),
        ]
    );
}

#[test]
fn override_flows_through_submission() {
    let fs: Vec<String> =
        vec!["BazEditor.Target.cs".to_string(), "QuxEditor.Target.cs".to_string()];
    let r = prepare_build(
        &request(BuildMode::CleanRebuild, Some("Chosen")),
        "Foo",
        UBT,
        true,
        &fs,
    );
    let plan = r.ok().expect("override should defuse the ambiguity");
    assert_eq!(plan.target, "Chosen");
    assert_eq!(plan.machine.phase(), BuildPhase::PreClean);
    assert!(plan.announce.starts_with(
        "Running: Clean Rebuild -> clean temp files, regenerate project files, then: dotnet "
    ));
}
