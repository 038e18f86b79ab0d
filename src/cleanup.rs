//! Which files of an extracted package are debugging leftovers: symbol files
//! and CI metadata files. The tree walk and the deletions happen outside;
//! this decides, for each file name found, whether it goes.
use vstd::prelude::*;
use crate::text::{ends_with, has_suffix, same_text};

verus! {

/// The extension of debug-symbol files.
pub const DEBUG_SYMBOL_SUFFIX: &'static str = ".pdb";

/// The CI checksum listing shipped beside artifacts.
pub const CHECKSUM_LISTING: &'static str = "CRC.txt";

/// The CI readme shipped beside artifacts.
pub const ARTIFACT_README: &'static str = "artifacts_readme.txt";

/// A file name whose extension is `pdb`: it ends with `.pdb`, and that dot
/// is not the first character (a name such as `.pdb` has no extension).
pub open spec fn has_symbol_extension(name: Seq<char>) -> bool {
    name.len() > DEBUG_SYMBOL_SUFFIX@.len() && ends_with(name, DEBUG_SYMBOL_SUFFIX@)
}

/// A file that the cleanup deletes.
pub open spec fn is_debug_file(name: Seq<char>) -> bool {
    has_symbol_extension(name) || name == CHECKSUM_LISTING@ || name == ARTIFACT_README@
}

/// Whether the file with this name is deleted by the cleanup.
pub fn is_debug_file_name(name: &str) -> (r: bool)
    ensures
        r == is_debug_file(name@),
{
    (name.unicode_len() > DEBUG_SYMBOL_SUFFIX.unicode_len() && has_suffix(
        name,
        DEBUG_SYMBOL_SUFFIX,
    )) || same_text(name, CHECKSUM_LISTING) || same_text(name, ARTIFACT_README)
}

/// The positions, in increasing order, of the debug files among `names`.
pub open spec fn debug_positions(names: Seq<Seq<char>>) -> Seq<int>
    decreases names.len(),
{
    if names.len() == 0 {
        seq![]
    } else {
        let rest = debug_positions(names.drop_last());
        if is_debug_file(names.last()) {
            rest.push(names.len() - 1)
        } else {
            rest
        }
    }
}

/// The names that stay once the debug files are deleted, in order.
pub open spec fn without_debug_files(names: Seq<Seq<char>>) -> Seq<Seq<char>>
    decreases names.len(),
{
    if names.len() == 0 {
        seq![]
    } else {
        let rest = without_debug_files(names.drop_last());
        if is_debug_file(names.last()) {
            rest
        } else {
            rest.push(names.last())
        }
    }
}

pub open spec fn names_view(names: Seq<String>) -> Seq<Seq<char>> {
    names.map_values(|n: String| n@)
}

/// The positions of the files among `names` that the cleanup deletes, in
/// increasing order.
pub fn debug_file_positions(names: &Vec<String>) -> (r: Vec<usize>)
    ensures
        r@.map_values(|i: usize| i as int) == debug_positions(names_view(names@)),
{
    let ghost all = names_view(names@);
    let mut out: Vec<usize> = Vec::new();
    let mut i: usize = 0;
    while i < names.len()
        invariant
            i <= names@.len(),
            all == names_view(names@),
            out@.map_values(|k: usize| k as int) == debug_positions(all.subrange(0, i as int)),
        decreases names.len() - i,
    {
        let ghost before = out@;
        assert(all.subrange(0, i + 1).drop_last() =~= all.subrange(0, i as int));
        assert(all.subrange(0, i + 1).last() == names@[i as int]@);
        if is_debug_file_name(names[i].as_str()) {
            out.push(i);
            assert(out@.map_values(|k: usize| k as int) =~= before.map_values(|k: usize| k as int).push(
                i as int,
            ));
        }
        i += 1;
    }
    assert(all.subrange(0, names@.len() as int) =~= all);
    out
}

/// Cleaning up a tree that has been cleaned up finds nothing: the second run
/// deletes no file, and what stays after two runs is what stayed after one.
pub proof fn lemma_cleanup_idempotent(names: Seq<Seq<char>>)
    ensures
        debug_positions(without_debug_files(names)) == Seq::<int>::empty(),
        without_debug_files(without_debug_files(names)) == without_debug_files(names),
    decreases names.len(),
{
    if names.len() > 0 {
        let rest = without_debug_files(names.drop_last());
        lemma_cleanup_idempotent(names.drop_last());
        if !is_debug_file(names.last()) {
            let kept = rest.push(names.last());
            assert(kept.drop_last() =~= rest);
            assert(kept.last() == names.last());
        }
    }
}

} // verus!
