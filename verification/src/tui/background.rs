//! Messages and status of the background duplicate scanner.

use vstd::prelude::*;
use crate::fs::duplicates::DuplicateCache;

verus! {

/// Messages sent from background scan tasks to the main event loop.
pub enum ScanMessage {
    ScanStarted,
    ScanComplete(DuplicateCache),
    ScanError(String),
    ValidationComplete(DuplicateCache),
}

/// Current status of the background scanner.
#[derive(Debug, Clone, Copy, PartialEq, Eq, Structural)]
pub enum ScanStatus {
    Idle,
    Scanning,
}

/// Directory names that duplicate scans do not enter.
pub open spec fn excluded_dir_names() -> Seq<Seq<char>> {
    seq![
        ".git"@,
        "node_modules"@,
        "target"@,
        ".build"@,
        "Library"@,
        ".Trash"@,
        ".cache"@,
        "__pycache__"@,
        "venv"@,
        ".venv"@,
    ]
}

/// Duplicate scans skip version-control and build directories, package and
/// cache directories, virtual environments, the trash and `Library`, and
/// nothing else.
pub proof fn law_excluded_dir_names(name: Seq<char>)
    ensures
        excluded_dir_names().contains(name) <==> (name == ".git"@ || name == "node_modules"@ || name == "target"@ || name == ".build"@ || name == "Library"@ || name == ".Trash"@ || name == ".cache"@ || name == "__pycache__"@ || name == "venv"@ || name == ".venv"@),
{
    let t = excluded_dir_names();
    assert(t[0] == ".git"@);
    assert(t[1] == "node_modules"@);
    assert(t[2] == "target"@);
    assert(t[3] == ".build"@);
    assert(t[4] == "Library"@);
    assert(t[5] == ".Trash"@);
    assert(t[6] == ".cache"@);
    assert(t[7] == "__pycache__"@);
    assert(t[8] == "venv"@);
    assert(t[9] == ".venv"@);
    if name == ".git"@ || name == "node_modules"@ || name == "target"@ || name == ".build"@ || name == "Library"@ || name == ".Trash"@ || name == ".cache"@ || name == "__pycache__"@ || name == "venv"@ || name == ".venv"@ {
        if name == ".git"@ { assert(t[0] == name); }
        if name == "node_modules"@ { assert(t[1] == name); }
        if name == "target"@ { assert(t[2] == name); }
        if name == ".build"@ { assert(t[3] == name); }
        if name == "Library"@ { assert(t[4] == name); }
        if name == ".Trash"@ { assert(t[5] == name); }
        if name == ".cache"@ { assert(t[6] == name); }
        if name == "__pycache__"@ { assert(t[7] == name); }
        if name == "venv"@ { assert(t[8] == name); }
        if name == ".venv"@ { assert(t[9] == name); }
    }
}

/// Returns the directory names to exclude from scanning.
pub fn excluded_dirs() -> (r: Vec<&'static str>)
    ensures
        r@.map_values(|s: &str| s@) == excluded_dir_names(),
{
    let r = vec![".git", "node_modules", "target", ".build", "Library", ".Trash", ".cache", "__pycache__", "venv", ".venv"];
    proof {
        assert(r@.map_values(|s: &str| s@) =~= excluded_dir_names());
    }
    r
}

} // verus!
