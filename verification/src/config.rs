//! Where the track root is kept between runs, and how it is read back.
//!
//! The root is stored as a single line of text in a file of the program's own
//! directory, below the user's configuration directory.

use vstd::prelude::*;
use vstd::std_specs::iter::IteratorSpec;
use vstd::string::StrSliceExecFns;

use crate::category::Category;
use crate::track_root::join_path;
use crate::track_root::spec_join;

verus! {

/// Name of the program's directory below the user's configuration directory.
pub const APP_DIR_NAME: &'static str = "LofiPlayer";

/// Name of the track root that a first run makes, below the program's
/// directory.
pub const TRACKS_DIR_NAME: &'static str = "tracks";

/// Name of the file, in the program's directory, that holds the track root.
pub const ROOT_FILE_NAME: &'static str = "trackDirPath.txt";

/// The character that ends a line.
pub const LINE_FEED: char = '\n';

/// The character that may stand before a line feed and then belongs to the
/// line's end.
pub const CARRIAGE_RETURN: char = '\r';

/// Where the first line of `text` ends: at the first line feed, or at the
/// end of the text if it has none.
pub open spec fn spec_line_end(text: Seq<char>) -> int {
    match text.index_of_first(LINE_FEED) {
        Some(position) => position,
        None => text.len() as int,
    }
}

/// The first line of `text`, without the line feed that ends it and without
/// a carriage return just before that line feed. A text without a line feed
/// is its own first line.
pub open spec fn spec_first_line(text: Seq<char>) -> Seq<char> {
    let end = spec_line_end(text);
    if 0 < end < text.len() && text[end - 1] == CARRIAGE_RETURN {
        text.subrange(0, end - 1)
    } else {
        text.subrange(0, end)
    }
}

/// The track root that the stored text holds: its first line, or none where
/// the text is empty.
pub open spec fn spec_stored_root(contents: Seq<char>) -> Option<Seq<char>> {
    if contents.len() == 0 {
        None
    } else {
        Some(spec_first_line(contents))
    }
}

/// A position at which a line feed stands, with none before it, is the line
/// end; so is the end of a text without line feed.
pub proof fn lemma_line_end_is(text: Seq<char>, end: int)
    requires
        0 <= end <= text.len(),
        forall|i: int| 0 <= i < end ==> text[i] != LINE_FEED,
        end < text.len() ==> text[end] == LINE_FEED,
    ensures
        spec_line_end(text) == end,
{
    text.index_of_first_ensures(LINE_FEED);
    match text.index_of_first(LINE_FEED) {
        Some(found) => {
            if end == text.len() || end < found {
                assert(text[found] == LINE_FEED);
            }
        },
        None => {
            if end < text.len() {
                assert(text.contains(LINE_FEED));
            }
        },
    }
}

/// Finds where the first line of `text` ends, in one pass.
pub fn line_end(text: &str) -> (end: usize)
    ensures
        end == spec_line_end(text@),
{
    let total: usize = text.unicode_len();
    let mut chars = text.chars();
    let mut position: usize = 0;
    loop
        invariant
            0 <= position <= total,
            total == text@.len(),
            chars.remaining() == text@.skip(position as int),
            forall|i: int| 0 <= i < position ==> text@[i] != LINE_FEED,
        decreases total - position,
    {
        match chars.next() {
            Some(c) => {
                assert(c == text@[position as int]);
                if c == LINE_FEED {
                    proof {
                        lemma_line_end_is(text@, position as int);
                    }
                    return position;
                }
                assert(text@.skip(position as int).drop_first() =~= text@.skip(position + 1));
                position += 1;
            },
            None => {
                proof {
                    lemma_line_end_is(text@, position as int);
                }
                return position;
            },
        }
    }
}

/// Reads the first line of `text`.
pub fn first_line(text: &str) -> (line: String)
    ensures
        line@ == spec_first_line(text@),
{
    let total: usize = text.unicode_len();
    let end: usize = line_end(text);
    proof {
        text@.index_of_first_ensures(LINE_FEED);
    }
    if 0 < end && end < total && text.get_char(end - 1) == CARRIAGE_RETURN {
        text.substring_char(0, end - 1).to_owned()
    } else {
        text.substring_char(0, end).to_owned()
    }
}

/// Reads the track root out of the contents of the file that holds it.
/// Empty contents hold none.
pub fn stored_root(contents: &str) -> (root: Option<String>)
    ensures
        root.deep_view() == spec_stored_root(contents@),
{
    if contents.unicode_len() == 0 {
        None
    } else {
        Some(first_line(contents))
    }
}

/// A track root without line feed is read back as it was stored, unless it
/// is empty.
pub proof fn lemma_stored_root_is_read_back(root: Seq<char>)
    requires
        root.len() > 0,
        !root.contains(LINE_FEED),
    ensures
        spec_stored_root(root) == Some(root),
{
    root.index_of_first_ensures(LINE_FEED);
    assert(root.subrange(0, root.len() as int) =~= root);
}

/// The paths that the program keeps below the user's configuration
/// directory.
#[derive(Clone, Debug, PartialEq, Eq)]
pub struct ConfigLayout {
    /// The program's own directory.
    pub app_dir: String,
    /// The track root that a first run makes.
    pub tracks_dir: String,
    /// The file that holds the track root.
    pub root_file: String,
}

impl ConfigLayout {
    /// Whether the paths are those below `config_dir`.
    pub open spec fn is_below(&self, config_dir: Seq<char>) -> bool {
        &&& self.app_dir@ == spec_join(config_dir, APP_DIR_NAME@)
        &&& self.tracks_dir@ == spec_join(self.app_dir@, TRACKS_DIR_NAME@)
        &&& self.root_file@ == spec_join(self.app_dir@, ROOT_FILE_NAME@)
    }

    /// The paths below the user's configuration directory `config_dir`.
    pub fn new(config_dir: &str) -> (layout: ConfigLayout)
        ensures
            layout.is_below(config_dir@),
    {
        let app_dir: String = join_path(config_dir, APP_DIR_NAME);
        let tracks_dir: String = join_path(app_dir.as_str(), TRACKS_DIR_NAME);
        let root_file: String = join_path(app_dir.as_str(), ROOT_FILE_NAME);
        ConfigLayout { app_dir, tracks_dir, root_file }
    }

    /// The directories that a first run makes, in the order in which they
    /// are made: the program's directory, the track root in it, and below
    /// that the directory of each category.
    pub open spec fn spec_first_run_directories(&self) -> Seq<Seq<char>> {
        seq![
            self.app_dir@,
            self.tracks_dir@,
            spec_join(self.tracks_dir@, Category::Lofi.spec_dir_name()),
            spec_join(self.tracks_dir@, Category::Background.spec_dir_name()),
        ]
    }

    /// The directories that a first run makes, in the order in which they
    /// are made.
    pub fn first_run_directories(&self) -> (directories: Vec<String>)
        ensures
            directories.deep_view() == self.spec_first_run_directories(),
    {
        let mut directories: Vec<String> = Vec::new();
        directories.push(self.app_dir.clone());
        directories.push(self.tracks_dir.clone());
        directories.push(join_path(self.tracks_dir.as_str(), Category::Lofi.dir_name()));
        directories.push(join_path(self.tracks_dir.as_str(), Category::Background.dir_name()));
        assert(directories.deep_view() =~= self.spec_first_run_directories());
        directories
    }
}

} // verus!
