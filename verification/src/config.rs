use vstd::prelude::*;

verus! {

/// Build settings of the tool: which CPython release to use, where to get
/// it, the marker that introduces a script embedded for RustPython, and the
/// name of the directory that holds a portable runtime.
pub struct AppConfig {
    pub python_version: String,
    pub python_download_url: String,
    pub rustpython_marker: String,
    pub local_env_dir_name: String,
}

} // verus!
