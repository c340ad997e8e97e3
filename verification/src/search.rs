//! Catalog lookup: whether the package list holds an entry for a name.

use vstd::prelude::*;

verus! {

/// One entry of the catalog directory, as the caller read it: the entry's
/// file name and whether it is a directory.
#[derive(Debug)]
pub struct CatalogEntry {
    pub name: String,
    pub is_dir: bool,
}

/// Whether the catalog contains `program`: decided by the first entry whose
/// name matches — the match counts only when that entry is a directory.
pub open spec fn catalog_contains(entries: Seq<CatalogEntry>, program: Seq<char>) -> bool
    decreases entries.len(),
{
    if entries.len() == 0 {
        false
    } else if entries[0].name@ == program {
        entries[0].is_dir
    } else {
        catalog_contains(entries.drop_first(), program)
    }
}

/// Scans the catalog entries for `program`; the first entry with a matching
/// name decides, and only a directory entry counts as found.
pub fn search_program(entries: &Vec<CatalogEntry>, program: &str) -> (r: bool)
    ensures
        r == catalog_contains(entries@, program@),
{
    let target: String = program.to_owned();
    let n = entries.len();
    let mut k: usize = 0;
    proof {
        assert(entries@.skip(0) =~= entries@);
    }
    while k < n
        invariant
            0 <= k <= n,
            n == entries@.len(),
            target@ == program@,
            catalog_contains(entries@, program@) == catalog_contains(
                entries@.skip(k as int),
                program@,
            ),
        decreases n - k,
    {
        proof {
            assert(entries@.skip(k as int)[0] == entries@[k as int]);
        }
        if entries[k].name == target {
            return entries[k].is_dir;
        }
        proof {
            assert(entries@.skip(k as int).drop_first() =~= entries@.skip(k as int + 1));
        }
        k = k + 1;
    }
    proof {
        assert(entries@.skip(n as int).len() == 0);
    }
    false
}

} // verus!
