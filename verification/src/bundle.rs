//! Decisions around the zip bundle that a packed executable carries: which
//! engine it was packed for, which entries to unpack, which script to start,
//! and how that script is invoked.
use vstd::prelude::*;

use crate::text::{chars_contain, chars_end_with, chars_of, str_equals};

verus! {

/// The engine that a zip-packed executable was built for.
#[derive(Clone, Copy, Debug, PartialEq, Eq, Structural)]
pub enum PackedEngine {
    /// CPython runtime files travel inside the bundle.
    Cp,
    /// The runtime's zip travels inside the bundle and is unpacked next to the
    /// executable on first start.
    Local,
}

/// The text of the engine marker entry for each engine.
pub open spec fn engine_marker_text(engine: PackedEngine) -> Seq<char> {
    match engine {
        PackedEngine::Cp => "cp"@,
        PackedEngine::Local => "local"@,
    }
}

/// The engine that a marker text names, if any.
pub open spec fn engine_named_by(text: Seq<char>) -> Option<PackedEngine> {
    if text == "cp"@ {
        Some(PackedEngine::Cp)
    } else if text == "local"@ {
        Some(PackedEngine::Local)
    } else {
        None
    }
}

/// The contents written to the bundle's engine marker entry.
pub fn engine_marker(engine: PackedEngine) -> (r: &'static str)
    ensures
        r@ == engine_marker_text(engine),
{
    match engine {
        PackedEngine::Cp => "cp",
        PackedEngine::Local => "local",
    }
}

/// Reads the bundle's engine marker entry: only the exact texts `cp` and
/// `local` name an engine.
pub fn parse_engine_marker(text: &str) -> (r: Option<PackedEngine>)
    ensures
        r == engine_named_by(text@),
{
    if str_equals(text, "cp") {
        Some(PackedEngine::Cp)
    } else if str_equals(text, "local") {
        Some(PackedEngine::Local)
    } else {
        None
    }
}

/// The marker that packing writes names the engine it was written for.
pub proof fn lemma_engine_marker_round_trip(engine: PackedEngine)
    ensures
        engine_named_by(engine_marker_text(engine)) == Some(engine),
{
    reveal_strlit("cp");
    reveal_strlit("local");
    assert("cp"@.len() != "local"@.len());
}

/// The name of the bundle entry that holds the zipped portable runtime.
pub open spec fn runtime_archive_name() -> Seq<char> {
    "python_runtime.zip"@
}

/// What to do with one bundle entry when unpacking it.
#[derive(Clone, Copy, Debug, PartialEq, Eq, Structural)]
pub enum EntryAction {
    /// Leave the entry in the bundle.
    Skip,
    /// Create a directory.
    CreateDir,
    /// Write the entry out as a file.
    ExtractFile,
}

/// The entry names a directory: it ends with a slash.
pub open spec fn is_dir_entry(name: Seq<char>) -> bool {
    name.len() > 0 && name.last() == '/'
}

/// The action for an entry named `name`; the runtime archive is skipped when
/// `skip_runtime_archive` is set, since it is unpacked on its own.
pub fn entry_action(name: &str, skip_runtime_archive: bool) -> (r: EntryAction)
    ensures
        r == (if skip_runtime_archive && name@ == runtime_archive_name() {
            EntryAction::Skip
        } else if is_dir_entry(name@) {
            EntryAction::CreateDir
        } else {
            EntryAction::ExtractFile
        }),
{
    if skip_runtime_archive && str_equals(name, "python_runtime.zip") {
        return EntryAction::Skip;
    }
    let chars = chars_of(name);
    if chars.len() > 0 && chars[chars.len() - 1] == '/' {
        EntryAction::CreateDir
    } else {
        EntryAction::ExtractFile
    }
}

/// The entry is a script at the top of the bundle: its name ends with `.py`
/// and holds no slash.
pub open spec fn is_top_level_script(name: Seq<char>) -> bool {
    &&& name.len() >= ".py"@.len()
    &&& name.subrange(name.len() - ".py"@.len(), name.len() as int) == ".py"@
    &&& !name.contains('/')
}

/// Whether the entry named `name` is a script at the top of the bundle.
pub fn top_level_script(name: &str) -> (r: bool)
    ensures
        r == is_top_level_script(name@),
{
    let chars = chars_of(name);
    chars_end_with(&chars, &chars_of(".py")) && !chars_contain(&chars, '/')
}

/// The script that a bundle starts: the last top-level script among its
/// entries, or the empty name when there is none.
pub open spec fn chosen_script(names: Seq<Seq<char>>) -> Seq<char>
    decreases names.len(),
{
    if names.len() == 0 {
        Seq::empty()
    } else if is_top_level_script(names.last()) {
        names.last()
    } else {
        chosen_script(names.drop_last())
    }
}

/// Picks the script to start among the names of the bundle's entries, in
/// bundle order.
pub fn select_script_name(names: &Vec<String>) -> (r: String)
    ensures
        r@ == chosen_script(names.deep_view()),
{
    let mut k: usize = names.len();
    assert(names.deep_view().take(k as int) =~= names.deep_view());
    while k > 0
        invariant
            k <= names@.len(),
            chosen_script(names.deep_view()) == chosen_script(names.deep_view().take(k as int)),
        decreases k,
    {
        let ghost prefix = names.deep_view().take(k as int);
        assert(prefix.drop_last() =~= names.deep_view().take(k - 1));
        assert(prefix.last() == names[k - 1]@);
        if top_level_script(names[k - 1].as_str()) {
            return names[k - 1].clone();
        }
        k -= 1;
    }
    assert(names.deep_view().take(0).len() == 0);
    String::new()
}

/// The arguments handed to the interpreter: the script's path, then the
/// arguments the executable itself received after its own name.
pub open spec fn invocation_args(script_path: Seq<char>, process_args: Seq<Seq<char>>) -> Seq<
    Seq<char>,
> {
    if process_args.len() == 0 {
        seq![script_path]
    } else {
        seq![script_path] + process_args.skip(1)
    }
}

/// Builds the interpreter's argument list for a packed script.
pub fn script_invocation_args(script_path: &str, process_args: &Vec<String>) -> (r: Vec<String>)
    ensures
        r.deep_view() == invocation_args(script_path@, process_args.deep_view()),
{
    let mut r: Vec<String> = Vec::new();
    r.push(String::from_str(script_path));
    assert(r.deep_view() =~= seq![script_path@]);
    let n = process_args.len();
    if n == 0 {
        return r;
    }
    let mut k: usize = 1;
    assert(seq![script_path@] + process_args.deep_view().subrange(1, 1) =~= seq![script_path@]);
    while k < n
        invariant
            1 <= k <= n,
            n == process_args@.len(),
            r.deep_view() == seq![script_path@] + process_args.deep_view().subrange(1, k as int),
        decreases n - k,
    {
        let ghost before = r.deep_view();
        r.push(process_args[k].clone());
        assert(r.deep_view() =~= before.push(process_args[k as int]@));
        assert(seq![script_path@] + process_args.deep_view().subrange(1, k + 1) =~= before.push(
            process_args[k as int]@,
        ));
        k += 1;
    }
    assert(process_args.deep_view().subrange(1, n as int) =~= process_args.deep_view().skip(1));
    r
}

/// The exit status that the packed executable passes on when the interpreter
/// failed: its code, or 1 when it ended without one; nothing when it succeeded.
pub fn failure_exit_code(success: bool, code: Option<i32>) -> (r: Option<i32>)
    ensures
        r == (if success {
            None
        } else {
            Some(
                match code {
                    Some(c) => c,
                    None => 1,
                },
            )
        }),
{
    if success {
        None
    } else {
        match code {
            Some(c) => Some(c),
            None => Some(1),
        }
    }
}

} // verus!
