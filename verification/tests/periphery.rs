use stellar::engine::{format_label, is_engine_root, parse_version_from_name, should_skip_directory};
use stellar::notify::{
    SoundAttempt, get_ancestor_pids, on_build_failed, on_build_success, parent_of, play_sound,
};
use stellar::types::{BuildState, FocusItem, FocusPanel};

#[test]
fn notifications_pick_the_right_sound() {
    let ok = on_build_success();
    assert_eq!(ok.sound_file, "completed.wav");
    assert!(ok.flash_taskbar);
    let bad = on_build_failed();
    assert_eq!(bad.sound_file, "fail.wav");
    assert!(bad.flash_taskbar);
}

#[test]
fn playback_round_succeeds_when_any_attempt_played() {
    assert!(play_sound(&vec![SoundAttempt::NotPresent, SoundAttempt::Played]));
    assert!(!play_sound(&vec![SoundAttempt::NotPresent, SoundAttempt::PlayFailed]));
    assert!(!play_sound(&Vec::new()));
}

#[test]
fn parent_lookup_takes_the_first_entry() {
    let snapshot = vec![(5u32, 1u32), (5, 2), (4, 3)];
    assert_eq!(parent_of(&snapshot, 5), Some(1));
    assert_eq!(parent_of(&snapshot, 4), Some(3));
    assert_eq!(parent_of(&snapshot, 9), None);
}

#[test]
fn ancestor_walk_follows_the_chain() {
    let snapshot = vec![(5u32, 4u32), (4, 3), (3, 0)];
    assert_eq!(get_ancestor_pids(&snapshot, 5, 10), vec![4, 3]);
}

#[test]
fn ancestor_walk_stops_at_cycles_and_depth() {
    // In a two-cycle the walk collects both processes, then stops when it
    // sees the first repeat.
    let cyclic = vec![(5u32, 4u32), (4, 5)];
    assert_eq!(get_ancestor_pids(&cyclic, 5, 10), vec![4, 5]);
    let own_parent = vec![(7u32, 7u32)];
    assert_eq!(get_ancestor_pids(&own_parent, 7, 10), Vec::<u32>::new());
    let deep = vec![(5u32, 4u32), (4, 3), (3, 2), (2, 1)];
    assert_eq!(get_ancestor_pids(&deep, 5, 2), vec![4, 3]);
}

#[test]
fn skip_list_is_case_insensitive() {
    assert!(should_skip_directory("Launcher"));
    assert!(should_skip_directory("EPICGAMESLAUNCHER"));
    assert!(should_skip_directory("Epic Games Launcher"));
    assert!(should_skip_directory("DirectXRedist"));
    assert!(!should_skip_directory("UE_5.3"));
    assert!(!should_skip_directory("Launcher2"));
}

#[test]
fn engine_root_requires_engine_with_binaries_or_build() {
    assert!(is_engine_root(true, true, false));
    assert!(is_engine_root(true, false, true));
    assert!(!is_engine_root(true, false, false));
    assert!(!is_engine_root(false, true, true));
}

#[test]
fn install_labels() {
    assert_eq!(format_label("UE_5.3", &Some("5.3".to_string())), "Unreal Engine 5.3");
    assert_eq!(format_label("CustomBuild", &None), "Unreal Engine (CustomBuild)");
    assert_eq!(format_label("", &None), "Unreal Engine");
}

#[test]
fn focus_items_map_to_their_panels() {
    assert_eq!(FocusItem::Project(2).panel(), FocusPanel::Projects);
    assert_eq!(FocusItem::AddProject.panel(), FocusPanel::Projects);
    assert_eq!(FocusItem::Engine.panel(), FocusPanel::Engine);
    assert_eq!(FocusItem::BuildButton(0).panel(), FocusPanel::Build);
    assert_eq!(FocusItem::Logs.panel(), FocusPanel::Logs);
}

#[test]
fn build_state_labels() {
    assert_eq!(BuildState::Idle.label(), "Idle");
    assert_eq!(BuildState::Running.label(), "Building...");
    assert_eq!(BuildState::Success.label(), "Build Succeeded");
    assert_eq!(BuildState::Error.label(), "Build Failed");
    assert_eq!(BuildState::Cancelled.label(), "Cancelled");
}

#[test]
fn version_prefix_match_wins() {
    assert_eq!(parse_version_from_name("UE_5.3"), Some("5.3".to_string()));
    assert_eq!(parse_version_from_name("ue-4.27.2"), Some("4.27.2".to_string()));
    assert_eq!(parse_version_from_name("MyUE_5.1Dir"), Some("5.1".to_string()));
    // The marked number wins over an earlier bare number.
    assert_eq!(parse_version_from_name("2024 UE_5.3"), Some("5.3".to_string()));
}

#[test]
fn version_falls_back_to_first_number() {
    assert_eq!(parse_version_from_name("Engine 5.4.1 custom"), Some("5.4.1".to_string()));
    assert_eq!(parse_version_from_name("build7"), Some("7".to_string()));
    assert_eq!(parse_version_from_name("no digits here"), None);
    // A trailing dot is not part of the number.
    assert_eq!(parse_version_from_name("v5."), Some("5".to_string()));
}
