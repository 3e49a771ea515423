//! The directory below which the tracks of both categories are found.

use vstd::prelude::*;

use crate::category::Category;
use crate::text::join_text;

verus! {

/// What stands between a directory and a name below it.
pub const PATH_SEPARATOR: &'static str = "/";

/// The path of `name` below `base`.
pub open spec fn spec_join(base: Seq<char>, name: Seq<char>) -> Seq<char> {
    base + PATH_SEPARATOR@ + name
}

/// The directory of a category below a track root.
pub open spec fn category_directory(root: Seq<char>, category: Category) -> Seq<char> {
    spec_join(root, category.spec_dir_name())
}

/// Builds the path of `name` below `base`.
pub fn join_path(base: &str, name: &str) -> (path: String)
    ensures
        path@ == spec_join(base@, name@),
{
    let with_separator: String = join_text(base, PATH_SEPARATOR);
    join_text(with_separator.as_str(), name)
}

/// The track root together with the directories of the two categories.
///
/// The two directories are kept beside the root so that a refill need not
/// build them; they always belong to the current root.
#[derive(Debug, PartialEq, Eq)]
pub struct TrackRoot {
    root: String,
    background: String,
    lofi: String,
}

impl View for TrackRoot {
    type V = Seq<char>;

    closed spec fn view(&self) -> Seq<char> {
        self.root@
    }
}

impl Clone for TrackRoot {
    fn clone(&self) -> (copy: TrackRoot)
        ensures
            copy@ == self@,
    {
        TrackRoot::new(self.root.clone())
    }
}

impl TrackRoot {
    #[verifier::type_invariant]
    spec fn directories_follow_root(&self) -> bool {
        &&& self.background@ == category_directory(self.root@, Category::Background)
        &&& self.lofi@ == category_directory(self.root@, Category::Lofi)
    }

    /// A track root at `root`.
    pub fn new(root: String) -> (made: TrackRoot)
        ensures
            made@ == root@,
    {
        let background: String = join_path(root.as_str(), Category::Background.dir_name());
        let lofi: String = join_path(root.as_str(), Category::Lofi.dir_name());
        TrackRoot { root, background, lofi }
    }

    /// Moves the track root to `root`; both category directories move with
    /// it.
    pub fn set(&mut self, root: String)
        ensures
            final(self)@ == root@,
    {
        *self = TrackRoot::new(root);
    }

    /// The root itself.
    pub fn root(&self) -> (root: &String)
        ensures
            root@ == self@,
    {
        &self.root
    }

    /// The directory from which the tracks of `category` are read.
    pub fn directory(&self, category: Category) -> (directory: &String)
        ensures
            directory@ == category_directory(self@, category),
    {
        proof {
            use_type_invariant(self);
        }
        match category {
            Category::Background => &self.background,
            Category::Lofi => &self.lofi,
        }
    }
}

} // verus!
