use cargo_quill::error::NewError;
use cargo_quill::manifest::CARGO_TOML_FILE_TEXT;
use cargo_quill::new::{Action, Event, New, Phase, Session};

fn start(path: &str) -> (Session, Action) {
    Session::start(&New { path: path.to_string() })
}

fn probed(exists: bool, cwd: &str) -> Event {
    Event::Probed { exists, cwd: cwd.to_string() }
}

fn generated_manifest() -> Vec<String> {
    ["[package]", "name = \"my-plugin\"", "", "[dependencies]"]
        .iter()
        .map(|s| s.to_string())
        .collect()
}

fn error_of(a: &Action) -> Option<NewError> {
    match a {
        Action::Fail { error } => Some(*error),
        _ => None,
    }
}

#[test]
fn end_to_end_relative_path() {
    let (mut s, first) = start("./my-plugin");
    match first {
        Action::Probe { path } => assert_eq!(path, "./my-plugin"),
        other => panic!("unexpected {:?}", other),
    }
    match s.step(probed(false, "/home/u/proj")) {
        Action::CreateProject { name } => assert_eq!(name, "my-plugin"),
        other => panic!("unexpected {:?}", other),
    }
    assert_eq!(s.config.path, "/home/u/proj/my-plugin");
    match s.step(Event::ProjectCreated { success: true }) {
        Action::ReadManifest { path } => assert_eq!(path, "/home/u/proj/my-plugin/Cargo.toml"),
        other => panic!("unexpected {:?}", other),
    }
    match s.step(Event::ManifestRead { lines: generated_manifest() }) {
        Action::WriteManifest { path, text } => {
            assert_eq!(path, "/home/u/proj/my-plugin/Cargo.toml");
            assert_eq!(text, format!("[package]\nname = \"my-plugin\"\n{}", CARGO_TOML_FILE_TEXT));
            assert!(text.ends_with(CARGO_TOML_FILE_TEXT));
        }
        other => panic!("unexpected {:?}", other),
    }
    match s.step(Event::Written) {
        Action::WriteSource { path, text } => {
            assert_eq!(path, "/home/u/proj/my-plugin/src/lib.rs");
            assert!(text.contains("struct MyPluginPlugin {}"));
            assert!(text.contains("impl Plugin for MyPluginPlugin"));
        }
        other => panic!("unexpected {:?}", other),
    }
    match s.step(Event::Written) {
        Action::Report { name } => assert_eq!(name, "my-plugin"),
        other => panic!("unexpected {:?}", other),
    }
    assert_eq!(s.phase, Phase::Finished);
}

#[test]
fn existing_target_is_rejected_first() {
    let (mut s, _) = start("./my-plugin");
    let a = s.step(probed(true, "/home/u/proj"));
    assert_eq!(error_of(&a), Some(NewError::TargetExists));
    assert_eq!(s.phase, Phase::Failed);
    // nothing further is asked for
    let b = s.step(Event::ProjectCreated { success: true });
    assert_eq!(error_of(&b), Some(NewError::UnexpectedEvent));
}

#[test]
fn second_run_on_same_path_is_rejected() {
    let (mut first, _) = start("proj");
    assert!(matches!(first.step(probed(false, "/w")), Action::CreateProject { .. }));
    let (mut second, _) = start("proj");
    let a = second.step(probed(true, "/w"));
    assert_eq!(error_of(&a), Some(NewError::TargetExists));
}

#[test]
fn path_without_name_is_rejected() {
    for p in ["", "/", "..", "a/.."] {
        let (mut s, _) = start(p);
        assert_eq!(error_of(&s.step(probed(false, "/w"))), Some(NewError::InvalidPath));
        assert_eq!(s.phase, Phase::Failed);
    }
}

#[test]
fn name_without_alphanumeric_is_rejected() {
    let (mut s, _) = start("./--");
    assert_eq!(error_of(&s.step(probed(false, "/w"))), Some(NewError::InvalidName));
}

#[test]
fn creation_tool_failure_stops() {
    let (mut s, _) = start("p");
    s.step(probed(false, "/w"));
    let a = s.step(Event::ProjectCreated { success: false });
    assert_eq!(error_of(&a), Some(NewError::ExternalToolFailure));
    assert_eq!(s.phase, Phase::Failed);
}

#[test]
fn short_manifest_stops() {
    let (mut s, _) = start("p");
    s.step(probed(false, "/w"));
    s.step(Event::ProjectCreated { success: true });
    let a = s.step(Event::ManifestRead { lines: vec!["x".to_string()] });
    assert_eq!(error_of(&a), Some(NewError::ManifestTooShort));
}

#[test]
fn io_failure_stops() {
    let (mut s, _) = start("p");
    s.step(probed(false, "/w"));
    s.step(Event::ProjectCreated { success: true });
    let a = s.step(Event::IoFailed);
    assert_eq!(error_of(&a), Some(NewError::IoFailure));
    assert_eq!(s.phase, Phase::Failed);
}

#[test]
fn out_of_order_event_changes_nothing() {
    let (mut s, _) = start("p");
    let a = s.step(Event::Written);
    assert_eq!(error_of(&a), Some(NewError::UnexpectedEvent));
    assert_eq!(s.phase, Phase::Probing);
}

#[test]
fn absolute_target_keeps_its_path() {
    let (mut s, _) = start("/srv/a/../plugins/./demo");
    match s.step(probed(false, "/w")) {
        Action::CreateProject { name } => assert_eq!(name, "demo"),
        other => panic!("unexpected {:?}", other),
    }
    assert_eq!(s.config.path, "/srv/plugins/demo");
    assert_eq!(s.plugin, "DemoPlugin");
}
