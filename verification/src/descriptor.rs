//! Package metadata as the orchestrator consumes it.
//!
//! A descriptor is the parsed form of one catalog entry: the dependency
//! list (in declared install order), display fields, the source repository,
//! and the acquisition-mode flag (`download` selects the prebuilt-archive
//! path instead of a source build).

use vstd::prelude::*;

verus! {

/// Immutable metadata snapshot for one package, loaded fresh per install call.
#[derive(Debug)]
pub struct PackageDescriptor {
    /// Dependency package names, in install order; duplicates are kept.
    pub dependencies: Vec<String>,
    /// Implementation language, display only.
    pub language: String,
    /// Source repository URL.
    pub repository: String,
    /// Declared size in bytes, display only.
    pub capacity: i64,
    /// Version string.
    pub version: String,
    /// True selects the prebuilt-archive (fetch) acquisition mode.
    pub download: bool,
}

/// A dependency list holding exactly one empty name is a sentinel for
/// "no dependencies", defensive against malformed metadata.
pub open spec fn has_dep_sentinel(d: PackageDescriptor) -> bool {
    d.dependencies@.len() == 1 && d.dependencies@[0]@.len() == 0
}

/// The dependency names the orchestrator actually installs, in order.
pub open spec fn effective_deps(d: PackageDescriptor) -> Seq<Seq<char>> {
    if has_dep_sentinel(d) {
        Seq::empty()
    } else {
        d.dependencies@.map_values(|s: String| s@)
    }
}

impl PackageDescriptor {
    /// How many dependencies will be installed for this package.
    pub fn dep_count(&self) -> (n: usize)
        ensures
            n == effective_deps(*self).len(),
    {
        if self.dependencies.len() == 1 && self.dependencies[0].as_str().is_empty() {
            0
        } else {
            self.dependencies.len()
        }
    }

    /// The dependency name at position `i` of the effective list.
    pub fn dep_at(&self, i: usize) -> (name: String)
        requires
            i < effective_deps(*self).len(),
        ensures
            name@ == effective_deps(*self)[i as int],
    {
        self.dependencies[i].clone()
    }
}

} // verus!
