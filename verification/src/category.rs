//! The two audio roles and what is fixed for each of them.

use vstd::prelude::*;

verus! {

/// Name of the directory, below the track root, that holds the background
/// ambience.
pub const BACKGROUND_DIR_NAME: &'static str = "backgroundSound";

/// Name of the directory, below the track root, that holds the lofi music.
pub const LOFI_DIR_NAME: &'static str = "lofiMusic";

/// One of the two independent audio roles.
#[derive(Clone, Copy, Debug, PartialEq, Eq, Structural)]
pub enum Category {
    Background,
    Lofi,
}

impl Category {
    /// Fixed playback volume of the category, in hundredths of full volume.
    pub open spec fn spec_volume_percent(self) -> u8 {
        match self {
            Category::Background => 15,
            Category::Lofi => 25,
        }
    }

    /// Fixed playback volume of the category, in hundredths of full volume.
    #[verifier::when_used_as_spec(spec_volume_percent)]
    pub fn volume_percent(self) -> (percent: u8)
        ensures
            percent == self.spec_volume_percent(),
    {
        match self {
            Category::Background => 15,
            Category::Lofi => 25,
        }
    }

    /// The other of the two categories.
    pub open spec fn other(self) -> Category {
        match self {
            Category::Background => Category::Lofi,
            Category::Lofi => Category::Background,
        }
    }

    /// Name of the category's directory below the track root.
    pub open spec fn spec_dir_name(self) -> Seq<char> {
        match self {
            Category::Background => BACKGROUND_DIR_NAME@,
            Category::Lofi => LOFI_DIR_NAME@,
        }
    }

    /// Name of the category's directory below the track root.
    pub fn dir_name(self) -> (name: &'static str)
        ensures
            name@ == self.spec_dir_name(),
    {
        match self {
            Category::Background => BACKGROUND_DIR_NAME,
            Category::Lofi => LOFI_DIR_NAME,
        }
    }
}

} // verus!
