use pydrop::launch::{
    pip_install_args, pip_passthrough_args, plan_launch, runtime_for, Engine, Launch,
    RuntimeSource, RuntimeUse,
};

fn strings(v: &[&str]) -> Vec<String> {
    v.iter().map(|s| s.to_string()).collect()
}

#[test]
fn native_engines_pick_their_runtime() {
    for purpose in [RuntimeUse::Pip, RuntimeUse::Python, RuntimeUse::Shell] {
        assert_eq!(runtime_for(Engine::Cp, purpose), Ok(RuntimeSource::Cached));
        assert_eq!(runtime_for(Engine::Local, purpose), Ok(RuntimeSource::Portable));
    }
}

#[test]
fn rustpython_is_refused_with_the_commands_message() {
    assert_eq!(
        runtime_for(Engine::Rustpython, RuntimeUse::Pip),
        Err("RustPython engine does not support pip.".to_string())
    );
    assert_eq!(
        runtime_for(Engine::Rustpython, RuntimeUse::Python),
        Err("RustPython engine does not support running raw python CLI arguments.".to_string())
    );
    assert_eq!(
        runtime_for(Engine::Rustpython, RuntimeUse::Shell),
        Err("RustPython engine does not support native REPL shell.".to_string())
    );
}

#[test]
fn embedded_script_comes_first() {
    let plan = plan_launch(Some("print(1)".to_string()), Some("cp".to_string()), 1);
    assert!(matches!(plan, Launch::Embedded(s) if s == "print(1)"));
}

#[test]
fn bundle_marker_selects_packed_run() {
    assert!(matches!(plan_launch(None, Some("cp".to_string()), 3), Launch::PackedCp));
    assert!(matches!(plan_launch(None, Some("local".to_string()), 1), Launch::PackedLocal));
}

#[test]
fn unknown_marker_falls_through() {
    assert!(matches!(plan_launch(None, Some("other".to_string()), 1), Launch::DefaultShell));
    assert!(matches!(plan_launch(None, Some("other".to_string()), 2), Launch::Command));
}

#[test]
fn bare_start_opens_shell_and_arguments_mean_a_command() {
    assert!(matches!(plan_launch(None, None, 1), Launch::DefaultShell));
    assert!(matches!(plan_launch(None, None, 2), Launch::Command));
    assert!(matches!(plan_launch(None, None, 0), Launch::Command));
}

#[test]
fn pip_arguments_are_passed_through() {
    assert_eq!(
        pip_passthrough_args(&strings(&["install", "requests", "urllib3"])),
        strings(&["-m", "pip", "install", "requests", "urllib3"])
    );
    assert_eq!(pip_passthrough_args(&Vec::new()), strings(&["-m", "pip"]));
}

#[test]
fn install_targets_the_environment_directory() {
    assert_eq!(
        pip_install_args("/tmp/pydrop_env_1", &strings(&["numpy", "requests"])),
        strings(&["-m", "pip", "install", "--target", "/tmp/pydrop_env_1", "numpy", "requests"])
    );
}

#[test]
fn terminal_puts_its_directory_first_on_path() {
    assert_eq!(
        pydrop::launch::terminal_path_var("C:\\tools\\pydrop", "C:\\Windows;C:\\bin"),
        "C:\\tools\\pydrop;C:\\Windows;C:\\bin"
    );
    assert_eq!(pydrop::launch::terminal_path_var("d", ""), "d;");
}
