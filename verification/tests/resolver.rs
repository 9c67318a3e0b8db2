use stellar::resolver::{discover_editor_targets, expected_target, resolve_target};

fn files(names: &[&str]) -> Vec<String> {
    names.iter().map(|s| s.to_string()).collect()
}

#[test]
fn override_wins_over_everything() {
    let fs = files(&["BazEditor.Target.cs", "QuxEditor.Target.cs"]);
    let r = resolve_target("Foo", &Some("CustomEditor".to_string()), &fs);
    assert_eq!(r.unwrap(), "CustomEditor");
}

#[test]
fn override_returned_verbatim() {
    let r = resolve_target("Foo", &Some("  Spaced  ".to_string()), &files(&[]));
    assert_eq!(r.unwrap(), "  Spaced  ");
}

#[test]
fn blank_override_is_ignored() {
    let r = resolve_target("Foo", &Some("   ".to_string()), &files(&[]));
    assert_eq!(r.unwrap(), "FooEditor");
}

#[test]
fn no_candidates_appends_editor() {
    let r = resolve_target("Foo", &None, &files(&[]));
    assert_eq!(r.unwrap(), "FooEditor");
}

#[test]
fn no_candidates_stem_already_ends_in_editor() {
    let r = resolve_target("MyEditor", &None, &files(&[]));
    assert_eq!(r.unwrap(), "MyEditor");
}

#[test]
fn editor_suffix_check_is_case_insensitive() {
    let r = resolve_target("GAMEEDITOR", &None, &files(&[]));
    assert_eq!(r.unwrap(), "GAMEEDITOR");
}

#[test]
fn single_candidate_beats_convention() {
    let fs = files(&["WeirdEditor.Target.cs"]);
    let r = resolve_target("Foo", &None, &fs);
    assert_eq!(r.unwrap(), "WeirdEditor");
}

#[test]
fn multiple_candidates_convention_match_wins() {
    let fs = files(&["FooEditor.Target.cs", "BarEditor.Target.cs"]);
    let r = resolve_target("Foo", &None, &fs);
    assert_eq!(r.unwrap(), "FooEditor");
}

#[test]
fn multiple_candidates_without_match_are_ambiguous() {
    let fs = files(&["BazEditor.Target.cs", "QuxEditor.Target.cs"]);
    let r = resolve_target("Foo", &None, &fs);
    let e = r.err().expect("resolution should fail");
    assert_eq!(e.candidates, vec!["BazEditor".to_string(), "QuxEditor".to_string()]);
}

#[test]
fn discovery_sorts_and_deduplicates() {
    let fs = files(&[
        "BEditor.Target.cs",
        "AEditor.Target.cs",
        "AEditor.Target.cs",
        "readme.txt",
        "NotATarget.cs",
    ]);
    let r = discover_editor_targets(&fs);
    assert_eq!(r, vec!["AEditor".to_string(), "BEditor".to_string()]);
}

#[test]
fn discovery_requires_full_suffix() {
    let fs = files(&["Editor.Target.cs", "Foo.Target.cs", "FooEditor.Target.csv"]);
    let r = discover_editor_targets(&fs);
    assert_eq!(r, vec!["Editor".to_string()]);
}

#[test]
fn expected_target_appends_editor() {
    assert_eq!(expected_target("Foo"), "FooEditor");
    assert_eq!(expected_target("FooEditor"), "FooEditor");
    assert_eq!(expected_target(""), "Editor");
}
