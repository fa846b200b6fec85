//! The volume, which a helper in the user's session sets and reports through files.
use vstd::prelude::*;

verus! {

/// The directory of the files.
pub const IPC_DIR: &'static str = "/run/tiny-dfr";

/// The file with the volume to set.
pub const TARGET_PATH: &'static str = "/run/tiny-dfr/volume.target";

/// The file with the volume that is set.
pub const CURRENT_PATH: &'static str = "/run/tiny-dfr/volume.current";

/// The way to the volume. It holds nothing: the helper does the work.
#[derive(Clone, Copy, Debug, PartialEq, Eq, Structural)]
pub struct VolumeMixer;

impl VolumeMixer {
    /// The way to the volume.
    pub fn new() -> (r: VolumeMixer)
        ensures
            r == VolumeMixer,
    {
        VolumeMixer
    }
}

/// Both files lie in the directory that is made for them.
pub proof fn law_files_lie_in_directory()
    ensures
        TARGET_PATH@ == crate::paths::below(IPC_DIR@, "volume.target"@),
        CURRENT_PATH@ == crate::paths::below(IPC_DIR@, "volume.current"@),
{
    reveal_strlit("/run/tiny-dfr");
    reveal_strlit("/");
    reveal_strlit("volume.target");
    reveal_strlit("volume.current");
    reveal_strlit("/run/tiny-dfr/volume.target");
    reveal_strlit("/run/tiny-dfr/volume.current");
    assert(TARGET_PATH@ =~= crate::paths::below(IPC_DIR@, "volume.target"@));
    assert(CURRENT_PATH@ =~= crate::paths::below(IPC_DIR@, "volume.current"@));
}

} // verus!
