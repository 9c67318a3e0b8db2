use stellar::cleaner::{
    ArtifactKind, CleanStep, RemovalOutcome, clean_plan, clean_result, removal_log_line,
};
use stellar::logs::{
    classify_log_line, looks_like_target_error, sanitize_log_text, truncate_path,
};
use stellar::types::LogLevel;

#[test]
fn classification_by_severity_words() {
    assert_eq!(classify_log_line("error C2065: undeclared identifier"), LogLevel::Error);
    assert_eq!(classify_log_line("FATAL: out of memory"), LogLevel::Error);
    assert_eq!(classify_log_line("warning LNK4098: defaultlib"), LogLevel::Warning);
    assert_eq!(classify_log_line("Warn: deprecated"), LogLevel::Warning);
    assert_eq!(classify_log_line("Build complete"), LogLevel::Success);
    assert_eq!(classify_log_line("SUCCESS"), LogLevel::Success);
    assert_eq!(classify_log_line("Compiling module 3 of 10"), LogLevel::Info);
    // An error wins over a success marker on the same line.
    assert_eq!(classify_log_line("complete, with error"), LogLevel::Error);
}

#[test]
fn target_error_heuristic() {
    assert!(looks_like_target_error("Couldn't find target rules file for FooEditor"));
    assert!(looks_like_target_error("Unable to find target BarEditor"));
    assert!(looks_like_target_error("ERROR: No target name was specified"));
    assert!(looks_like_target_error("missing FooEditor.Target.cs"));
    assert!(!looks_like_target_error("everything is fine"));
    assert!(!looks_like_target_error("rules file missing"));
}

#[test]
fn sanitize_strips_ansi_sequences() {
    assert_eq!(sanitize_log_text("\u{1b}[31mred\u{1b}[0m text"), "red text");
    assert_eq!(sanitize_log_text("\u{1b}]bare escape"), "]bare escape");
    // A lower-case letter is a valid final byte, so the sequence ends at
    // the first one.
    assert_eq!(sanitize_log_text("\u{1b}[unterminated"), "nterminated");
    assert_eq!(sanitize_log_text("\u{1b}[12;34"), "");
}

#[test]
fn sanitize_flattens_breaks_and_tabs() {
    assert_eq!(sanitize_log_text("line1\nline2"), "line1 line2");
    assert_eq!(sanitize_log_text("a\tb"), "a    b");
    assert_eq!(sanitize_log_text("a\u{7}b\u{0}c"), "abc");
    assert_eq!(sanitize_log_text("keep me   \r\n"), "keep me");
    assert_eq!(sanitize_log_text("   "), "");
}

#[test]
fn truncation_for_display() {
    assert_eq!(truncate_path("short", 10), "short");
    assert_eq!(truncate_path("abcdefghij", 8), "...fghij");
    assert_eq!(truncate_path("abcdefghij", 4), "abcd");
    assert_eq!(truncate_path("abcdefghij", 10), "abcdefghij");
}

#[test]
fn cleanup_plan_is_fixed_and_ordered() {
    let plan = clean_plan("Foo");
    let names: Vec<&str> = plan.iter().map(|s| s.name.as_str()).collect();
    assert_eq!(names, vec!["Binaries", "Intermediate", "Saved", ".vs", "Foo.sln", "Foo.sln"]);
    assert_eq!(plan[0].kind, ArtifactKind::Directory);
    assert_eq!(plan[3].kind, ArtifactKind::Directory);
    assert_eq!(plan[4].kind, ArtifactKind::SolutionFile);
}

#[test]
fn missing_paths_are_never_an_error() {
    let plan = clean_plan("Foo");
    let outcomes = vec![
        RemovalOutcome::Missing,
        RemovalOutcome::Missing,
        RemovalOutcome::Missing,
        RemovalOutcome::Missing,
        RemovalOutcome::Missing,
        RemovalOutcome::Missing,
    ];
    assert!(clean_result(&plan, &outcomes).is_ok());
}

#[test]
fn mixed_removals_without_failure_succeed() {
    let plan = clean_plan("Foo");
    let outcomes = vec![
        RemovalOutcome::Removed,
        RemovalOutcome::Missing,
        RemovalOutcome::Removed,
        RemovalOutcome::Missing,
        RemovalOutcome::Removed,
        RemovalOutcome::Missing,
    ];
    assert!(clean_result(&plan, &outcomes).is_ok());
}

#[test]
fn first_failed_removal_is_reported() {
    let plan = clean_plan("Foo");
    let outcomes = vec![
        RemovalOutcome::Removed,
        RemovalOutcome::Missing,
        RemovalOutcome::FailedToRemove,
    ];
    let e = clean_result(&plan, &outcomes).err().expect("failure expected");
    assert_eq!(e.path, "Saved");
}

#[test]
fn removal_announcements() {
    let d = CleanStep { name: "Binaries".to_string(), kind: ArtifactKind::Directory };
    let f = CleanStep { name: "Foo.sln".to_string(), kind: ArtifactKind::SolutionFile };
    assert_eq!(removal_log_line(&d), "Removing directory: Binaries");
    assert_eq!(removal_log_line(&f), "Removing file: Foo.sln");
}

#[test]
fn log_entries_are_scrubbed_and_classified() {
    let entry = stellar::logs::make_log_line("\u{1b}[31merror C1\u{1b}[0m  ").expect("kept");
    assert_eq!(entry.text, "error C1");
    assert_eq!(entry.level, LogLevel::Error);
    assert!(stellar::logs::make_log_line("   \r\n").is_none());
}

#[test]
fn recent_window_limits_the_target_error_scan() {
    let mk = |t: &str| stellar::types::LogLine {
        text: t.to_string(),
        level: stellar::logs::classify_log_line(t),
    };
    let entries = vec![
        mk("Couldn't find target rules file for FooEditor"),
        mk("ordinary line"),
        mk("another ordinary line"),
    ];
    // The hit is outside a window of two, inside a window of three.
    assert!(!stellar::logs::recent_target_error(&entries, 2));
    assert!(stellar::logs::recent_target_error(&entries, 3));
    assert!(stellar::logs::recent_target_error(&entries, 200));
    assert!(!stellar::logs::recent_target_error(&entries, 0));
}
