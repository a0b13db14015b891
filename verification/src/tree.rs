//! The decisions taken while a site's files are brought to the output
//! directory. What is found on disk comes in as plain facts; what is to be
//! done goes out as a step to perform.

use vstd::prelude::*;

verus! {

/// What to do with one entry of a directory that is copied across.
#[derive(Debug, Clone, Copy, PartialEq, Eq, Structural)]
pub enum CopyStep {
    /// Copy the file.
    CopyFile,
    /// Make a hard link to the file.
    LinkFile,
    /// Leave the file: a hard link to it is in place.
    KeepFile,
    /// Copy the directory across in the same way.
    Descend,
    /// Leave the entry and say that it is a symbolic link.
    ReportSymlink,
    /// Leave the entry and say that it is of no known kind.
    ReportUnknown,
}

/// The step for an entry of the given kind. Files are copied, or
/// hard-linked where `hardlink` asks for it and no file stands at the
/// target yet; directories are descended into; anything else is left and
/// reported.
pub open spec fn copy_step_of(
    is_file: bool,
    is_dir: bool,
    is_symlink: bool,
    hardlink: bool,
    target_exists: bool,
) -> CopyStep {
    if is_file {
        if !hardlink {
            CopyStep::CopyFile
        } else if !target_exists {
            CopyStep::LinkFile
        } else {
            CopyStep::KeepFile
        }
    } else if is_dir {
        CopyStep::Descend
    } else if is_symlink {
        CopyStep::ReportSymlink
    } else {
        CopyStep::ReportUnknown
    }
}

/// Decides what to do with one entry of a directory that is copied across.
pub fn copy_step(
    is_file: bool,
    is_dir: bool,
    is_symlink: bool,
    hardlink: bool,
    target_exists: bool,
) -> (step: CopyStep)
    ensures
        step == copy_step_of(is_file, is_dir, is_symlink, hardlink, target_exists),
{
    if is_file {
        if !hardlink {
            CopyStep::CopyFile
        } else if !target_exists {
            CopyStep::LinkFile
        } else {
            CopyStep::KeepFile
        }
    } else if is_dir {
        CopyStep::Descend
    } else if is_symlink {
        CopyStep::ReportSymlink
    } else {
        CopyStep::ReportUnknown
    }
}

/// How to bring the directory of large images to the output.
#[derive(Debug, Clone, Copy, PartialEq, Eq, Structural)]
pub enum GifsStep {
    /// Make one symbolic link to the directory.
    Symlink,
    /// Copy the directory across, hard-linking its files.
    Hardlink,
    /// Leave what is there.
    Nothing,
}

/// The step for the large images: one symbolic link where the
/// configuration asks for it and nothing stands at the target; files
/// hard-linked where it asks for that; else nothing.
pub open spec fn gifs_step_of(target_exists: bool, symlink: bool) -> GifsStep {
    if !target_exists && symlink {
        GifsStep::Symlink
    } else if !symlink {
        GifsStep::Hardlink
    } else {
        GifsStep::Nothing
    }
}

/// Decides how to bring the directory of large images to the output.
pub fn gifs_step(target_exists: bool, symlink: bool) -> (step: GifsStep)
    ensures
        step == gifs_step_of(target_exists, symlink),
        step is Symlink <==> symlink && !target_exists,
        step is Hardlink <==> !symlink,
{
    if !target_exists && symlink {
        GifsStep::Symlink
    } else if !symlink {
        GifsStep::Hardlink
    } else {
        GifsStep::Nothing
    }
}

} // verus!
