//! Choice of the next track of a category: one entry of the category's
//! directory, taken at random.

use vstd::prelude::*;

verus! {

/// Why a channel could not be given a track, or could not be made at all.
#[derive(Clone, Copy, Debug, PartialEq, Eq, Structural)]
pub enum TrackError {
    /// The category's directory is missing or cannot be read.
    DirectoryUnavailable,
    /// The category's directory holds no entry.
    NoTrackAvailable,
    /// The chosen entry cannot be opened for reading.
    FileUnreadable,
    /// The chosen entry does not decode as audio.
    UnsupportedFormat,
    /// No audio output device could be opened.
    NoAudioDevice,
}

/// How much a failure matters to the running player.
#[derive(Clone, Copy, Debug, PartialEq, Eq, Structural)]
pub enum Severity {
    /// Expected while a directory is empty or absent: retried without a word.
    Silent,
    /// One entry was skipped: worth a line in the log, then retried.
    Logged,
    /// The player cannot run.
    Fatal,
}

impl TrackError {
    /// How much the failure matters.
    pub open spec fn spec_severity(self) -> Severity {
        match self {
            TrackError::DirectoryUnavailable => Severity::Silent,
            TrackError::NoTrackAvailable => Severity::Silent,
            TrackError::FileUnreadable => Severity::Logged,
            TrackError::UnsupportedFormat => Severity::Logged,
            TrackError::NoAudioDevice => Severity::Fatal,
        }
    }

    /// How much the failure matters.
    #[verifier::when_used_as_spec(spec_severity)]
    pub fn severity(self) -> (severity: Severity)
        ensures
            severity == self.spec_severity(),
    {
        match self {
            TrackError::DirectoryUnavailable => Severity::Silent,
            TrackError::NoTrackAvailable => Severity::Silent,
            TrackError::FileUnreadable => Severity::Logged,
            TrackError::UnsupportedFormat => Severity::Logged,
            TrackError::NoAudioDevice => Severity::Fatal,
        }
    }

    /// Only the lack of an audio device stops the player.
    pub fn is_fatal(self) -> (fatal: bool)
        ensures
            fatal == (self == TrackError::NoAudioDevice),
    {
        match self {
            TrackError::NoAudioDevice => true,
            _ => false,
        }
    }

    /// The failure in words.
    pub open spec fn spec_describe(self) -> Seq<char> {
        match self {
            TrackError::DirectoryUnavailable => "track directory cannot be read"@,
            TrackError::NoTrackAvailable => "track directory is empty"@,
            TrackError::FileUnreadable => "track cannot be opened"@,
            TrackError::UnsupportedFormat => "track is not in a supported audio format"@,
            TrackError::NoAudioDevice => "no audio output device"@,
        }
    }

    /// The failure in words.
    pub fn describe(self) -> (words: String)
        ensures
            words@ == self.spec_describe(),
    {
        match self {
            TrackError::DirectoryUnavailable => "track directory cannot be read".to_owned(),
            TrackError::NoTrackAvailable => "track directory is empty".to_owned(),
            TrackError::FileUnreadable => "track cannot be opened".to_owned(),
            TrackError::UnsupportedFormat => "track is not in a supported audio format".to_owned(),
            TrackError::NoAudioDevice => "no audio output device".to_owned(),
        }
    }
}

/// The entry that a drawn position selects: the entry at that position, or
/// no track where nothing was drawn or the position lies outside the entries.
pub open spec fn spec_select(
    entries: Seq<Seq<char>>,
    choice: Option<usize>,
) -> Result<Seq<char>, TrackError> {
    match choice {
        Some(position) => if position < entries.len() {
            Ok(entries[position as int])
        } else {
            Err(TrackError::NoTrackAvailable)
        },
        None => Err(TrackError::NoTrackAvailable),
    }
}

/// Mathematical form of a pick: the path as a sequence of characters.
pub open spec fn pick_view(picked: Result<String, TrackError>) -> Result<Seq<char>, TrackError> {
    match picked {
        Ok(path) => Ok(path@),
        Err(error) => Err(error),
    }
}

/// Whether `choice` is a position that a draw among `count` entries can
/// give: none for no entries, else one below `count`.
pub open spec fn drawn_among(count: nat, choice: Option<usize>) -> bool {
    match choice {
        Some(position) => position < count,
        None => count == 0,
    }
}

/// Draws one of the positions `0 .. count` with
/// `rand::seq::IteratorRandom::choose` on that range, fed by
/// `rand::thread_rng()`.
///
/// Taken on trust from the outside crate: the draw is `None` exactly when the
/// range is empty and otherwise one of the positions of the range. Which one
/// is left open; the crate draws each with the same chance. The generator is
/// seeded by the operating system, and the crate panics if that fails.
#[verifier::external_body]
fn draw_position(count: usize) -> (choice: Option<usize>)
    ensures
        drawn_among(count as nat, choice),
{
    rand::seq::IteratorRandom::choose(0..count, &mut rand::thread_rng())
}

/// Takes out of `entries` what a drawn position selects.
pub fn select_entry(
    entries: &Vec<String>,
    choice: Option<usize>,
) -> (picked: Result<String, TrackError>)
    ensures
        pick_view(picked) == spec_select(entries.deep_view(), choice),
{
    match choice {
        Some(position) => {
            if position < entries.len() {
                Ok(entries[position].clone())
            } else {
                Err(TrackError::NoTrackAvailable)
            }
        },
        None => Err(TrackError::NoTrackAvailable),
    }
}

/// Picks the next track from the listing of a category's directory.
///
/// `listing` is `None` where the directory cannot be read, else its entries
/// as paths. A directory that cannot be read and an empty one each give
/// their error; from any other listing one entry is picked at random, each
/// with the same chance.
pub fn pick_track(listing: Option<Vec<String>>) -> (picked: Result<String, TrackError>)
    ensures
        listing is None ==> picked == Err::<String, TrackError>(TrackError::DirectoryUnavailable),
        listing matches Some(entries) ==> exists|choice: Option<usize>|
            #![auto]
            drawn_among(entries.len() as nat, choice) && pick_view(picked) == spec_select(
                entries.deep_view(),
                choice,
            ),
{
    match listing {
        None => Err(TrackError::DirectoryUnavailable),
        Some(entries) => {
            let choice: Option<usize> = draw_position(entries.len());
            select_entry(&entries, choice)
        },
    }
}

/// Whatever is drawn among the entries of a listing, an empty listing gives
/// no track and any other gives one of its entries: the pick itself fails
/// only on a directory that is empty or cannot be read.
pub proof fn lemma_draw_selects_an_entry(entries: Seq<Seq<char>>, choice: Option<usize>)
    requires
        drawn_among(entries.len(), choice),
    ensures
        entries.len() == 0 ==> spec_select(entries, choice) == Err::<Seq<char>, TrackError>(
            TrackError::NoTrackAvailable,
        ),
        entries.len() > 0 ==> spec_select(entries, choice) is Ok && entries.contains(
            spec_select(entries, choice).unwrap(),
        ),
{
}

/// Every entry of a listing can be picked: its position is one that the
/// draw can give, and that draw selects it.
pub proof fn lemma_every_entry_can_be_drawn(entries: Seq<Seq<char>>, position: usize)
    requires
        position < entries.len(),
    ensures
        drawn_among(entries.len(), Some(position)),
        spec_select(entries, Some(position)) == Ok::<Seq<char>, TrackError>(
            entries[position as int],
        ),
{
}

} // verus!
