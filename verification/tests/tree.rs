use jear::tree::{copy_step, gifs_step, CopyStep, GifsStep};

#[test]
fn files_are_copied_unless_hard_links_are_asked_for() {
    assert_eq!(copy_step(true, false, false, false, false), CopyStep::CopyFile);
    assert_eq!(copy_step(true, false, false, false, true), CopyStep::CopyFile);
    assert_eq!(copy_step(true, false, false, true, false), CopyStep::LinkFile);
    assert_eq!(copy_step(true, false, false, true, true), CopyStep::KeepFile);
}

#[test]
fn directories_are_descended_into() {
    assert_eq!(copy_step(false, true, false, false, false), CopyStep::Descend);
    assert_eq!(copy_step(false, true, false, true, true), CopyStep::Descend);
}

#[test]
fn other_entries_are_reported() {
    assert_eq!(copy_step(false, false, true, false, false), CopyStep::ReportSymlink);
    assert_eq!(copy_step(false, false, true, true, true), CopyStep::ReportSymlink);
    assert_eq!(copy_step(false, false, false, false, false), CopyStep::ReportUnknown);
    assert_eq!(copy_step(false, false, false, true, false), CopyStep::ReportUnknown);
}

#[test]
fn large_images_are_linked_as_configured() {
    assert_eq!(gifs_step(false, true), GifsStep::Symlink);
    assert_eq!(gifs_step(true, true), GifsStep::Nothing);
    assert_eq!(gifs_step(false, false), GifsStep::Hardlink);
    assert_eq!(gifs_step(true, false), GifsStep::Hardlink);
}
