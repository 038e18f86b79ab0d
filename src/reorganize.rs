//! Reorganizing a 64-bit package: the files of its nested runtime folder move
//! up into the installation root, and components meant for 32-bit games are
//! removed. The plan is made from what the package holds; carrying it out on
//! disk happens outside.
use vstd::prelude::*;
use crate::cleanup::names_view;
use crate::text::same_text;

verus! {

/// The nested folder that holds the runtime in newer packages.
pub const NESTED_DIR: &'static str = ".trex";

/// The file whose presence in the root marks a package already laid out
/// flat.
pub const ROOT_MARKER: &'static str = "dxvk.dll";

/// The directory of USD schemas, moved from the nested folder to the root.
pub const USD_DIR: &'static str = "usd";

/// The bridge executable, which 64-bit games do not use.
pub const BRIDGE_EXECUTABLE: &'static str = "nvremixbridge.exe";

/// How many files `stray_root_file` names.
pub const STRAY_ROOT_FILE_COUNT: usize = 6;

/// What the extracted package holds, as far as the reorganization reads it.
#[derive(Clone, Debug)]
pub struct PackageLayout {
    /// The nested folder exists.
    pub nested_dir_present: bool,
    /// The root marker file exists.
    pub root_marker_present: bool,
    /// The names of the regular files directly inside the nested folder.
    pub nested_files: Vec<String>,
    /// The nested folder holds a `usd` directory.
    pub nested_usd_present: bool,
}

/// One file-system step of the reorganization, in the order given.
#[derive(Clone, Copy, Debug, PartialEq, Eq, Structural)]
pub enum ReorgStep {
    /// Delete the bridge executable inside the nested folder, if present.
    RemoveNestedBridge,
    /// Move the nested file at this position of `nested_files` into the
    /// root, replacing a root file of the same name.
    MoveNestedFile(usize),
    /// Delete the root's `usd` directory, if present, and move the nested one
    /// into its place.
    ReplaceRootUsd,
    /// Delete the nested folder and what is left in it.
    RemoveNestedDir,
    /// Delete the root file that `stray_root_file` names at this position, if
    /// present.
    RemoveRootFile(usize),
}

/// Why the package cannot be reorganized.
#[derive(Clone, Copy, Debug, PartialEq, Eq, Structural)]
pub enum ReorgError {
    /// Neither the nested folder nor the root marker file exists: the
    /// package is not laid out as expected.
    MissingStructure,
}

pub open spec fn stray_root_file_text(i: int) -> Seq<char> {
    if i == 0 {
        BRIDGE_EXECUTABLE@
    } else if i == 1 {
        "d3d8to9.dll"@
    } else if i == 2 {
        "d3d8.dll"@
    } else if i == 3 {
        "d3d8_off.dll"@
    } else if i == 4 {
        "dxwrapper.dll"@
    } else {
        "dxwrapper.ini"@
    }
}

/// The files that a 64-bit installation must not keep in its root: the
/// bridge, the Direct3D 8 shims and the wrapper with its settings.
pub fn stray_root_file(i: usize) -> (r: &'static str)
    requires
        i < STRAY_ROOT_FILE_COUNT,
    ensures
        r@ == stray_root_file_text(i as int),
{
    if i == 0 {
        BRIDGE_EXECUTABLE
    } else if i == 1 {
        "d3d8to9.dll"
    } else if i == 2 {
        "d3d8.dll"
    } else if i == 3 {
        "d3d8_off.dll"
    } else if i == 4 {
        "dxwrapper.dll"
    } else {
        "dxwrapper.ini"
    }
}

/// Moves for the first `n` nested files, skipping the bridge executable,
/// which is deleted before the moves.
pub open spec fn nested_moves(files: Seq<Seq<char>>, n: int) -> Seq<ReorgStep>
    decreases n,
{
    if n <= 0 {
        seq![]
    } else if files[n - 1] == BRIDGE_EXECUTABLE@ {
        nested_moves(files, n - 1)
    } else {
        nested_moves(files, n - 1).push(ReorgStep::MoveNestedFile((n - 1) as usize))
    }
}

/// The removals of the stray root files, in table order.
pub open spec fn stray_removals() -> Seq<ReorgStep> {
    seq![
        ReorgStep::RemoveRootFile(0),
        ReorgStep::RemoveRootFile(1),
        ReorgStep::RemoveRootFile(2),
        ReorgStep::RemoveRootFile(3),
        ReorgStep::RemoveRootFile(4),
        ReorgStep::RemoveRootFile(5),
    ]
}

/// The steps for a package that has the nested folder: delete the bridge,
/// move the files up, replace the root `usd` directory, drop the folder.
pub open spec fn nested_steps(files: Seq<Seq<char>>, usd: bool) -> Seq<ReorgStep> {
    seq![ReorgStep::RemoveNestedBridge] + nested_moves(files, files.len() as int) + (if usd {
        seq![ReorgStep::ReplaceRootUsd]
    } else {
        seq![]
    }) + seq![ReorgStep::RemoveNestedDir]
}

/// The whole plan: the nested steps where the folder exists, nothing where
/// only the root marker does, then the stray removals; an error where
/// neither exists.
pub open spec fn reorg_plan(layout: PackageLayout) -> Result<Seq<ReorgStep>, ReorgError> {
    if layout.nested_dir_present {
        Ok(
            nested_steps(names_view(layout.nested_files@), layout.nested_usd_present)
                + stray_removals(),
        )
    } else if layout.root_marker_present {
        Ok(stray_removals())
    } else {
        Err(ReorgError::MissingStructure)
    }
}

/// The file-system steps that reorganize a 64-bit package, or
/// `MissingStructure` when the package has neither the nested folder nor the
/// root marker; then no step is to be taken at all.
pub fn plan_x64_reorganization(layout: &PackageLayout) -> (r: Result<Vec<ReorgStep>, ReorgError>)
    ensures
        r is Err <==> (!layout.nested_dir_present && !layout.root_marker_present),
        match reorg_plan(*layout) {
            Ok(steps) => r is Ok && r->Ok_0@ == steps,
            Err(e) => r == Err::<Vec<ReorgStep>, ReorgError>(e),
        },
{
    if !layout.nested_dir_present && !layout.root_marker_present {
        return Err(ReorgError::MissingStructure);
    }
    let mut steps: Vec<ReorgStep> = Vec::new();
    if layout.nested_dir_present {
        let ghost files = names_view(layout.nested_files@);
        steps.push(ReorgStep::RemoveNestedBridge);
        let mut i: usize = 0;
        while i < layout.nested_files.len()
            invariant
                i <= layout.nested_files@.len(),
                files == names_view(layout.nested_files@),
                steps@ == seq![ReorgStep::RemoveNestedBridge] + nested_moves(files, i as int),
            decreases layout.nested_files.len() - i,
        {
            let ghost before = steps@;
            if !same_text(layout.nested_files[i].as_str(), BRIDGE_EXECUTABLE) {
                steps.push(ReorgStep::MoveNestedFile(i));
                assert(steps@ =~= seq![ReorgStep::RemoveNestedBridge] + nested_moves(
                    files,
                    i + 1,
                ));
            }
            i += 1;
        }
        if layout.nested_usd_present {
            steps.push(ReorgStep::ReplaceRootUsd);
        }
        steps.push(ReorgStep::RemoveNestedDir);
        assert(steps@ =~= nested_steps(files, layout.nested_usd_present));
    }
    let ghost head = steps@;
    let mut k: usize = 0;
    while k < STRAY_ROOT_FILE_COUNT
        invariant
            k <= STRAY_ROOT_FILE_COUNT,
            steps@ == head + stray_removals().subrange(0, k as int),
        decreases STRAY_ROOT_FILE_COUNT - k,
    {
        steps.push(ReorgStep::RemoveRootFile(k));
        assert(steps@ =~= head + stray_removals().subrange(0, k + 1));
        k += 1;
    }
    assert(stray_removals().subrange(0, 6) =~= stray_removals());
    assert(!layout.nested_dir_present ==> head =~= Seq::<ReorgStep>::empty());
    assert(!layout.nested_dir_present ==> steps@ =~= stray_removals());
    Ok(steps)
}

} // verus!
