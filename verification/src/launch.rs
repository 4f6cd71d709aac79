//! What a start of the tool does: run a script packed behind the executable,
//! open the default shell, or follow a command; and which Python runtime and
//! pip arguments a command uses.
use vstd::prelude::*;

use crate::bundle::{engine_named_by, parse_engine_marker, PackedEngine};

verus! {

/// The backend that a command asks for.
#[derive(Clone, Copy, Debug, PartialEq, Eq, Structural)]
pub enum Engine {
    /// The CPython runtime cached per user.
    Cp,
    /// A portable CPython runtime in a directory of its own.
    Local,
    /// The RustPython interpreter.
    Rustpython,
}

/// The commands that need a native Python runtime.
#[derive(Clone, Copy, Debug, PartialEq, Eq, Structural)]
pub enum RuntimeUse {
    /// Running pip.
    Pip,
    /// Running python with raw arguments.
    Python,
    /// The interactive shell.
    Shell,
}

/// Where the native runtime for a command comes from.
#[derive(Clone, Copy, Debug, PartialEq, Eq, Structural)]
pub enum RuntimeSource {
    /// The per-user cache, for the configured Python version.
    Cached,
    /// The portable runtime directory under the current directory.
    Portable,
}

/// The refusal for each command that RustPython cannot serve.
pub open spec fn rustpython_refusal(purpose: RuntimeUse) -> Seq<char> {
    match purpose {
        RuntimeUse::Pip => "RustPython engine does not support pip."@,
        RuntimeUse::Python => "RustPython engine does not support running raw python CLI arguments."@,
        RuntimeUse::Shell => "RustPython engine does not support native REPL shell."@,
    }
}

/// The runtime that a command uses for the chosen engine, or the message with
/// which it is refused.
pub fn runtime_for(engine: Engine, purpose: RuntimeUse) -> (r: Result<RuntimeSource, String>)
    ensures
        match engine {
            Engine::Cp => r == Ok::<RuntimeSource, String>(RuntimeSource::Cached),
            Engine::Local => r == Ok::<RuntimeSource, String>(RuntimeSource::Portable),
            Engine::Rustpython => r matches Err(msg) && msg@ == rustpython_refusal(purpose),
        },
{
    match engine {
        Engine::Cp => Ok(RuntimeSource::Cached),
        Engine::Local => Ok(RuntimeSource::Portable),
        Engine::Rustpython => Err(
            match purpose {
                RuntimeUse::Pip => String::from_str("RustPython engine does not support pip."),
                RuntimeUse::Python => String::from_str(
                    "RustPython engine does not support running raw python CLI arguments.",
                ),
                RuntimeUse::Shell => String::from_str(
                    "RustPython engine does not support native REPL shell.",
                ),
            },
        ),
    }
}

/// What one start of the executable does.
#[derive(Debug)]
pub enum Launch {
    /// Run the script packed behind the executable with RustPython.
    Embedded(String),
    /// Unpack the bundle and run its script with the bundled CPython files.
    PackedCp,
    /// Unpack the bundle and run its script with the portable runtime.
    PackedLocal,
    /// No arguments: open the interactive shell of the cached runtime.
    DefaultShell,
    /// Parse the command line and follow the command.
    Command,
}

/// Decides what a start does from what was found in the executable: a script
/// embedded for RustPython comes first, then a bundle whose engine marker names
/// an engine, then a bare start opens the shell; anything else is a command.
/// `arg_count` counts the process arguments, the executable's own name included.
pub fn plan_launch(
    embedded_script: Option<String>,
    engine_marker: Option<String>,
    arg_count: usize,
) -> (r: Launch)
    ensures
        match embedded_script {
            Some(s) => r == Launch::Embedded(s),
            None => {
                let engine = match engine_marker {
                    Some(m) => engine_named_by(m@),
                    None => None,
                };
                r == match engine {
                    Some(PackedEngine::Cp) => Launch::PackedCp,
                    Some(PackedEngine::Local) => Launch::PackedLocal,
                    None => if arg_count == 1 {
                        Launch::DefaultShell
                    } else {
                        Launch::Command
                    },
                }
            },
        },
{
    if let Some(s) = embedded_script {
        return Launch::Embedded(s);
    }
    let engine = match &engine_marker {
        Some(m) => parse_engine_marker(m.as_str()),
        None => None,
    };
    match engine {
        Some(PackedEngine::Cp) => Launch::PackedCp,
        Some(PackedEngine::Local) => Launch::PackedLocal,
        None => if arg_count == 1 {
            Launch::DefaultShell
        } else {
            Launch::Command
        },
    }
}

/// The arguments that run pip through the interpreter with the user's
/// arguments: `-m pip`, then those arguments.
pub fn pip_passthrough_args(args: &Vec<String>) -> (r: Vec<String>)
    ensures
        r.deep_view() == seq!["-m"@, "pip"@] + args.deep_view(),
{
    let mut r: Vec<String> = Vec::new();
    r.push(String::from_str("-m"));
    r.push(String::from_str("pip"));
    let ghost start = r.deep_view();
    assert(start =~= seq!["-m"@, "pip"@]);
    push_strings(&mut r, args);
    r
}

/// The arguments that install `packages` into the directory `target`:
/// `-m pip install --target <target>`, then the packages.
pub fn pip_install_args(target: &str, packages: &Vec<String>) -> (r: Vec<String>)
    ensures
        r.deep_view() == seq!["-m"@, "pip"@, "install"@, "--target"@, target@]
            + packages.deep_view(),
{
    let mut r: Vec<String> = Vec::new();
    r.push(String::from_str("-m"));
    r.push(String::from_str("pip"));
    r.push(String::from_str("install"));
    r.push(String::from_str("--target"));
    r.push(String::from_str(target));
    assert(r.deep_view() =~= seq!["-m"@, "pip"@, "install"@, "--target"@, target@]);
    push_strings(&mut r, packages);
    r
}

/// The `PATH` value of the portable terminal: the executable's directory put
/// in front of the inherited value, separated by `;`.
pub fn terminal_path_var(exe_dir: &str, inherited: &str) -> (r: String)
    ensures
        r@ == exe_dir@ + ";"@ + inherited@,
{
    let mut r = String::from_str(exe_dir);
    r.append(";");
    r.append(inherited);
    r
}

fn push_strings(out: &mut Vec<String>, more: &Vec<String>)
    ensures
        final(out).deep_view() == old(out).deep_view() + more.deep_view(),
{
    let ghost start = out.deep_view();
    let mut k: usize = 0;
    while k < more.len()
        invariant
            k <= more@.len(),
            out.deep_view() == start + more.deep_view().subrange(0, k as int),
        decreases more@.len() - k,
    {
        let ghost before = out.deep_view();
        out.push(more[k].clone());
        assert(out.deep_view() =~= before.push(more[k as int]@));
        assert(start + more.deep_view().subrange(0, k + 1) =~= before.push(more[k as int]@));
        k += 1;
    }
    assert(more.deep_view().subrange(0, more@.len() as int) =~= more.deep_view());
}

} // verus!
