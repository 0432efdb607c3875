use bpf_artifacts::config::{select_mode, BuildMode};
use bpf_artifacts::events::{collect_artifacts, warning_line, Artifact, ArtifactSet, BuildEvent};
use bpf_artifacts::staging::{
    binary_names, install_steps, stages, stub_destinations, CopyStep, Stage, TargetInfo,
};
use bpf_artifacts::stream::{event_or_text, parse_event};

fn artifact_line(name: &str, kind: &str, executable: &str) -> String {
    format!(
        "{{\"reason\":\"compiler-artifact\",\"package_id\":\"integration-ebpf 0.1.0 (path+file:///w/ebpf)\",\"manifest_path\":\"/w/ebpf/Cargo.toml\",\"target\":{{\"kind\":[\"{kind}\"],\"crate_types\":[\"{kind}\"],\"name\":\"{name}\",\"src_path\":\"/w/ebpf/src/{name}.rs\",\"edition\":\"2021\",\"doc\":true,\"doctest\":false,\"test\":true}},\"profile\":{{\"opt_level\":\"3\",\"debuginfo\":0,\"debug_assertions\":false,\"overflow_checks\":false,\"test\":false}},\"features\":[],\"filenames\":[\"/t/{name}\"],\"executable\":{executable},\"fresh\":false}}"
    )
}

fn artifact(name: &str, executable: Option<&str>) -> BuildEvent {
    BuildEvent::CompilerArtifact {
        name: name.to_string(),
        executable: executable.map(|path| path.to_string()),
    }
}

fn target(name: &str, kinds: &[&str]) -> TargetInfo {
    TargetInfo { name: name.to_string(), kinds: kinds.iter().map(|kind| kind.to_string()).collect() }
}

fn entries(set: &ArtifactSet) -> Vec<(String, String)> {
    (0..set.len())
        .map(|index| {
            let Artifact { name, path } = set.entry(index).unwrap();
            (name, path)
        })
        .collect()
}

#[test]
fn artifact_line_with_executable_is_read() {
    let event = parse_event(&artifact_line("log", "bin", "\"/t/log\""));
    assert_eq!(event, artifact("log", Some("/t/log")));
}

#[test]
fn artifact_line_without_executable_is_read() {
    let event = parse_event(&artifact_line("integration_ebpf", "lib", "null"));
    assert_eq!(event, artifact("integration_ebpf", None));
}

#[test]
fn compiler_message_line_carries_the_rendered_text() {
    let line = "{\"reason\":\"compiler-message\",\"package_id\":\"integration-ebpf 0.1.0 (path+file:///w/ebpf)\",\"manifest_path\":\"/w/ebpf/Cargo.toml\",\"target\":{\"kind\":[\"bin\"],\"crate_types\":[\"bin\"],\"name\":\"log\",\"src_path\":\"/w/ebpf/src/log.rs\",\"edition\":\"2021\",\"doc\":true,\"doctest\":false,\"test\":true},\"message\":{\"rendered\":\"warning: unused variable\\n\",\"children\":[],\"code\":null,\"level\":\"warning\",\"message\":\"unused variable\",\"spans\":[]}}";
    let event = parse_event(line);
    assert_eq!(
        event,
        BuildEvent::CompilerMessage { message: "warning: unused variable\n".to_string() }
    );
}

#[test]
fn other_records_are_read_as_other() {
    let event = parse_event("{\"reason\":\"build-finished\",\"success\":true}");
    assert_eq!(event, BuildEvent::Other);
}

#[test]
fn text_that_is_no_record_is_a_plain_line() {
    assert_eq!(
        parse_event("   Compiling log v0.1.0"),
        BuildEvent::TextLine { line: "   Compiling log v0.1.0".to_string() }
    );
    assert_eq!(parse_event(""), BuildEvent::TextLine { line: String::new() });
}

#[test]
fn event_or_text_keeps_what_was_found() {
    assert_eq!(event_or_text(Some(BuildEvent::Other), "x"), BuildEvent::Other);
    assert_eq!(event_or_text(None, "x"), BuildEvent::TextLine { line: "x".to_string() });
}

#[test]
fn artifact_with_executable_is_recorded() {
    let mut set = ArtifactSet::new();
    assert_eq!(set.handle_event(&artifact("log", Some("/t/log"))), None);
    assert_eq!(entries(&set), vec![("log".to_string(), "/t/log".to_string())]);
    assert_eq!(set.path_of("log"), Some("/t/log".to_string()));
    assert_eq!(set.position("log"), Some(0));
    assert_eq!(set.path_of("map"), None);
    assert_eq!(set.position("map"), None);
    assert_eq!(set.entry(1), None);
}

#[test]
fn artifact_without_executable_is_ignored() {
    let mut set = ArtifactSet::new();
    let event = parse_event(&artifact_line("integration_ebpf", "lib", "null"));
    assert_eq!(set.handle_event(&event), None);
    assert_eq!(set.len(), 0);
    assert_eq!(set.handle_event(&artifact("empty", Some(""))), None);
    assert_eq!(set.len(), 0);
}

#[test]
fn messages_and_lines_are_forwarded_and_change_nothing() {
    let mut set = ArtifactSet::new();
    set.record("log", "/t/log");
    let said = set.handle_event(&BuildEvent::CompilerMessage { message: "careful".to_string() });
    assert_eq!(said, Some("careful".to_string()));
    let line = set.handle_event(&BuildEvent::TextLine { line: "hello".to_string() });
    assert_eq!(line, Some("hello".to_string()));
    assert_eq!(set.handle_event(&BuildEvent::Other), None);
    assert_eq!(entries(&set), vec![("log".to_string(), "/t/log".to_string())]);
}

#[test]
fn a_name_reported_again_keeps_its_place_and_takes_the_new_path() {
    let mut set = ArtifactSet::new();
    set.record("log", "/t/log");
    set.record("map", "/t/map");
    set.record("log", "/u/log");
    assert_eq!(
        entries(&set),
        vec![("log".to_string(), "/u/log".to_string()), ("map".to_string(), "/t/map".to_string())]
    );
    set.record("log", "/u/log");
    assert_eq!(set.len(), 2);
}

#[test]
fn warning_line_has_the_fixed_prefix() {
    assert_eq!(warning_line("unused variable"), "cargo:warning=unused variable");
    assert_eq!(warning_line(""), "cargo:warning=");
}

#[test]
fn a_run_of_events_yields_artifacts_and_diagnostics_in_order() {
    let events = vec![
        BuildEvent::TextLine { line: "first".to_string() },
        artifact("integration_ebpf", None),
        artifact("log", Some("/t/log")),
        BuildEvent::CompilerMessage { message: "second".to_string() },
        BuildEvent::Other,
        artifact("map", Some("/t/map")),
    ];
    let (set, diagnostics) = collect_artifacts(&events);
    assert_eq!(
        entries(&set),
        vec![("log".to_string(), "/t/log".to_string()), ("map".to_string(), "/t/map".to_string())]
    );
    assert_eq!(diagnostics, vec!["first".to_string(), "second".to_string()]);
}

#[test]
fn many_diagnostics_between_artifacts_lose_no_artifact() {
    let mut events = Vec::new();
    let mut declared = Vec::new();
    for round in 0..20 {
        for line in 0..500 {
            events.push(BuildEvent::TextLine { line: format!("diagnostic {round} {line}") });
        }
        let name = format!("bin{round}");
        events.push(artifact(&name, Some(&format!("/t/{name}"))));
        declared.push(name);
    }
    let (set, diagnostics) = collect_artifacts(&events);
    assert_eq!(set.len(), 20);
    assert_eq!(diagnostics.len(), 10_000);
    assert!(set.is_complete(&declared));
}

#[test]
fn completeness_needs_every_declared_binary_and_nothing_else() {
    let mut set = ArtifactSet::new();
    set.record("log", "/t/log");
    set.record("map", "/t/map");
    assert!(set.is_complete(&vec!["map".to_string(), "log".to_string()]));
    assert!(!set.is_complete(&vec!["log".to_string()]));
    assert!(!set.is_complete(&vec!["log".to_string(), "pass".to_string()]));
    assert!(!set.is_complete(&vec!["log".to_string(), "map".to_string(), "pass".to_string()]));
    assert!(ArtifactSet::new().is_complete(&Vec::new()));
}

#[test]
fn a_name_declared_twice_is_never_complete() {
    let mut set = ArtifactSet::new();
    set.record("a", "/t/a");
    set.record("b", "/t/b");
    assert!(!set.is_complete(&vec!["a".to_string(), "a".to_string()]));
    assert!(!set.is_complete(&vec!["b".to_string(), "b".to_string()]));
    assert!(set.is_complete(&vec!["a".to_string(), "b".to_string()]));
}

#[test]
fn only_targets_of_the_one_kind_bin_are_binaries() {
    assert!(target("log", &["bin"]).is_binary());
    assert!(!target("lib", &["lib"]).is_binary());
    assert!(!target("both", &["bin", "lib"]).is_binary());
    assert!(!target("none", &[]).is_binary());
    let targets =
        vec![target("integration_ebpf", &["lib"]), target("log", &["bin"]), target("map", &["bin"])];
    assert_eq!(binary_names(&targets), vec!["log".to_string(), "map".to_string()]);
}

#[test]
fn unset_switch_takes_the_stub_path_with_one_file_per_binary() {
    let mode = select_mode(None).unwrap();
    assert_eq!(mode, BuildMode::Stub);
    assert_eq!(stages(mode), vec![Stage::WriteStubs]);
    let targets =
        vec![target("integration_ebpf", &["lib"]), target("log", &["bin"]), target("map", &["bin"])];
    let destinations = stub_destinations(&targets);
    assert_eq!(
        destinations,
        vec![
            "ext.bpf.o".to_string(),
            "main.bpf.o".to_string(),
            "multimap-btf.bpf.o".to_string(),
            "reloc.bpf.o".to_string(),
            "text_64_64_reloc.o".to_string(),
            "reloc.btf.o".to_string(),
            "log".to_string(),
            "map".to_string(),
        ]
    );
    assert!(destinations.contains(&"main.bpf.o".to_string()));
}

#[test]
fn full_run_goes_through_every_stage_in_order() {
    assert_eq!(
        stages(BuildMode::Full),
        vec![
            Stage::InstallHeaders,
            Stage::CompileObjects,
            Stage::ExtractSections,
            Stage::CrossBuild,
            Stage::InstallArtifacts,
        ]
    );
}

#[test]
fn install_copies_each_executable_to_its_component_name() {
    let mut set = ArtifactSet::new();
    set.record("log", "/t/log");
    set.record("map", "/t/map");
    let expected = vec![
        CopyStep { source: "/t/log".to_string(), destination: "log".to_string() },
        CopyStep { source: "/t/map".to_string(), destination: "map".to_string() },
    ];
    assert_eq!(install_steps(&set), expected);
    assert_eq!(install_steps(&set), expected);
    assert!(install_steps(&ArtifactSet::new()).is_empty());
}

#[test]
fn diagnostics_anywhere_leave_the_collected_set_unchanged() {
    let quiet = vec![artifact("log", Some("/t/log")), artifact("map", Some("/t/map"))];
    let noisy = vec![
        BuildEvent::TextLine { line: "a".to_string() },
        artifact("log", Some("/t/log")),
        BuildEvent::CompilerMessage { message: "b".to_string() },
        BuildEvent::Other,
        artifact("lib", None),
        artifact("map", Some("/t/map")),
        BuildEvent::TextLine { line: "c".to_string() },
    ];
    let (expected, none) = collect_artifacts(&quiet);
    let (found, said) = collect_artifacts(&noisy);
    assert_eq!(found, expected);
    assert!(none.is_empty());
    assert_eq!(said, vec!["a".to_string(), "b".to_string(), "c".to_string()]);
}

#[test]
fn the_set_holds_exactly_the_reported_names() {
    let events = vec![
        artifact("log", Some("/t/log")),
        artifact("lib", None),
        artifact("empty", Some("")),
        artifact("log", Some("/u/log")),
    ];
    let (set, _) = collect_artifacts(&events);
    assert_eq!(entries(&set), vec![("log".to_string(), "/u/log".to_string())]);
    assert_eq!(set.position("lib"), None);
    assert_eq!(set.position("empty"), None);
}
