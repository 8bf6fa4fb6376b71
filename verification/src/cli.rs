//! Options that select the candidate source: a search root, traversal depth
//! bounds, and whether candidates are filesystem paths (which enables the
//! engine's path-aware matching profile).

use vstd::prelude::*;

verus! {

/// Command-line options for a fuzzy-find run. The binary front end parses its
/// arguments into this shape; the library only reads it.
#[derive(Debug)]
pub struct Cli {
    /// Restrict candidates to directories and use the path-aware profile.
    pub directory: bool,
    /// Root of the directory walk; `None` means the current directory.
    pub path: Option<String>,
    /// Minimum depth of the walk, when given.
    pub min_depth: Option<usize>,
    /// Maximum depth of the walk, when given.
    pub max_depth: Option<usize>,
}

impl Default for Cli {
    /// No path, no depth bounds, plain text profile.
    fn default() -> (r: Self)
        ensures
            !r.directory,
            r.path is None,
            r.min_depth is None,
            r.max_depth is None,
    {
        Cli { directory: false, path: None, min_depth: None, max_depth: None }
    }
}

} // verus!
