use pydrop::bundle::{
    engine_marker, entry_action, failure_exit_code, parse_engine_marker, script_invocation_args,
    select_script_name, top_level_script, EntryAction, PackedEngine,
};

fn strings(v: &[&str]) -> Vec<String> {
    v.iter().map(|s| s.to_string()).collect()
}

#[test]
fn engine_markers_read_back() {
    assert_eq!(engine_marker(PackedEngine::Cp), "cp");
    assert_eq!(engine_marker(PackedEngine::Local), "local");
    for e in [PackedEngine::Cp, PackedEngine::Local] {
        assert_eq!(parse_engine_marker(engine_marker(e)), Some(e));
    }
}

#[test]
fn only_exact_markers_name_an_engine() {
    assert_eq!(parse_engine_marker("cp\n"), None);
    assert_eq!(parse_engine_marker("CP"), None);
    assert_eq!(parse_engine_marker(""), None);
    assert_eq!(parse_engine_marker("rustpython"), None);
}

#[test]
fn entries_are_classified() {
    assert_eq!(entry_action("python_runtime.zip", true), EntryAction::Skip);
    assert_eq!(entry_action("python_runtime.zip", false), EntryAction::ExtractFile);
    assert_eq!(entry_action("Lib/site-packages/", true), EntryAction::CreateDir);
    assert_eq!(entry_action("python.exe", true), EntryAction::ExtractFile);
    assert_eq!(entry_action("", false), EntryAction::ExtractFile);
}

#[test]
fn top_level_scripts_are_recognised() {
    assert!(top_level_script("main.py"));
    assert!(top_level_script(".py"));
    assert!(!top_level_script("Lib/site-packages/six.py"));
    assert!(!top_level_script("main.pyc"));
    assert!(!top_level_script("engine.txt"));
}

#[test]
fn last_top_level_script_is_started() {
    let names = strings(&["python.exe", "app.py", "Lib/", "Lib/site-packages/x.py", "main.py", "engine.txt"]);
    assert_eq!(select_script_name(&names), "main.py");
}

#[test]
fn bundle_without_script_starts_empty_name() {
    let names = strings(&["python.exe", "Lib/", "Lib/a.py"]);
    assert_eq!(select_script_name(&names), "");
    assert_eq!(select_script_name(&Vec::new()), "");
}

#[test]
fn script_receives_the_executables_arguments() {
    let args = strings(&["app.exe", "--verbose", "input.txt"]);
    assert_eq!(
        script_invocation_args("/tmp/run/main.py", &args),
        strings(&["/tmp/run/main.py", "--verbose", "input.txt"])
    );
    assert_eq!(script_invocation_args("m.py", &strings(&["app.exe"])), strings(&["m.py"]));
    assert_eq!(script_invocation_args("m.py", &Vec::new()), strings(&["m.py"]));
}

#[test]
fn failed_interpreter_status_is_passed_on() {
    assert_eq!(failure_exit_code(true, Some(0)), None);
    assert_eq!(failure_exit_code(false, Some(3)), Some(3));
    assert_eq!(failure_exit_code(false, None), Some(1));
}
