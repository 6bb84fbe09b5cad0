//! Plugin path resolution.
//!
//! A plugin identifier is either an absolute path, loaded directly, or a bare
//! file name searched for in an ordered list of directories. The host checks
//! the file system and performs the dynamic load; this module holds the
//! decision which candidate to load and the load-time error taxonomy.

use vstd::prelude::*;

verus! {

/// Why loading a plugin failed. All of these abort startup: they are
/// configuration or environment errors, not recoverable at runtime.
#[derive(Clone, Copy, PartialEq, Eq, Structural, Debug)]
pub enum LoadError {
    /// No candidate path exists.
    NotFound,
    /// The module's declared contract version or symbol layout does not
    /// match the host's expectation.
    AbiMismatch,
    /// The module's loader entry point returned an error.
    InitFailed,
}

/// Which path a plugin identifier resolved to.
#[derive(Clone, Copy, PartialEq, Eq, Structural, Debug)]
pub enum PluginSource {
    /// The identifier was an absolute path: load it directly.
    Direct,
    /// Load the search-directory candidate at this index.
    Candidate(usize),
}

/// Picks the path to load a plugin from.
///
/// `is_absolute` says whether the identifier is an absolute path;
/// `candidate_exists` holds, per search directory in search order, whether
/// the directory joined with the identifier names an existing file. An
/// absolute identifier is loaded directly; otherwise the first existing
/// candidate wins, and if none exists the plugin is not found.
pub fn resolve_plugin_path(is_absolute: bool, candidate_exists: &Vec<bool>) -> (r: Result<
    PluginSource,
    LoadError,
>)
    ensures
        match r {
            Ok(PluginSource::Direct) => is_absolute,
            Ok(PluginSource::Candidate(i)) => !is_absolute && i < candidate_exists@.len()
                && candidate_exists@[i as int] && (forall|j: int|
                0 <= j < i ==> !candidate_exists@[j]),
            Err(LoadError::NotFound) => !is_absolute && (forall|j: int|
                0 <= j < candidate_exists@.len() ==> !candidate_exists@[j]),
            Err(_) => false,
        },
{
    if is_absolute {
        return Ok(PluginSource::Direct);
    }
    let mut i: usize = 0;
    while i < candidate_exists.len()
        invariant
            !is_absolute,
            i <= candidate_exists@.len(),
            forall|j: int| 0 <= j < i ==> !candidate_exists@[j],
        decreases candidate_exists@.len() - i,
    {
        if candidate_exists[i] {
            return Ok(PluginSource::Candidate(i));
        }
        i = i + 1;
    }
    Err(LoadError::NotFound)
}

} // verus!
