//! Commands accepted by the playback controller and their text form on the
//! command inbox.

use vstd::prelude::*;

use crate::text::after_prefix;
use crate::text::join_text;
use crate::text::same_text;
use crate::text::starts_with;

verus! {

/// Text of the message that resumes playback.
pub const PLAY_WORD: &'static str = "PLAY";

/// Text of the message that pauses playback.
pub const PAUSE_WORD: &'static str = "PAUSE";

/// What a message that redirects the track root begins with; the new root
/// follows it.
pub const DIRECTORY_PREFIX: &'static str = "trackDir:";

/// A request to the playback controller.
#[derive(Clone, Debug, PartialEq, Eq)]
pub enum Command {
    /// Resume both channels.
    Play,
    /// Pause both channels.
    Pause,
    /// Read tracks from below the given root from now on.
    SetDirectory(String),
}

/// Mathematical form of a [`Command`]: the root is a sequence of characters.
pub enum CommandView {
    Play,
    Pause,
    SetDirectory(Seq<char>),
}

impl View for Command {
    type V = CommandView;

    open spec fn view(&self) -> CommandView {
        match self {
            Command::Play => CommandView::Play,
            Command::Pause => CommandView::Pause,
            Command::SetDirectory(root) => CommandView::SetDirectory(root@),
        }
    }
}

impl DeepView for Command {
    type V = CommandView;

    open spec fn deep_view(&self) -> CommandView {
        self@
    }
}

/// The command that a message stands for, if any. The words for play and
/// pause must match exactly; anything that begins with the directory prefix
/// sets the root to the rest of the message, which may be empty.
pub open spec fn spec_parse(message: Seq<char>) -> Option<CommandView> {
    if message == PLAY_WORD@ {
        Some(CommandView::Play)
    } else if message == PAUSE_WORD@ {
        Some(CommandView::Pause)
    } else if DIRECTORY_PREFIX@.is_prefix_of(message) {
        Some(CommandView::SetDirectory(message.skip(DIRECTORY_PREFIX@.len() as int)))
    } else {
        None
    }
}

/// The message that stands for a command.
pub open spec fn spec_encode(command: CommandView) -> Seq<char> {
    match command {
        CommandView::Play => PLAY_WORD@,
        CommandView::Pause => PAUSE_WORD@,
        CommandView::SetDirectory(root) => DIRECTORY_PREFIX@ + root,
    }
}

/// Reads a message from the inbox. Messages that stand for no command give
/// `None`.
pub fn parse_command(message: &str) -> (parsed: Option<Command>)
    ensures
        parsed.deep_view() == spec_parse(message@),
{
    if same_text(message, PLAY_WORD) {
        Some(Command::Play)
    } else if same_text(message, PAUSE_WORD) {
        Some(Command::Pause)
    } else if starts_with(message, DIRECTORY_PREFIX) {
        let skipped: usize = DIRECTORY_PREFIX.unicode_len();
        Some(Command::SetDirectory(after_prefix(message, skipped)))
    } else {
        None
    }
}

/// Writes a command as a message for the inbox.
pub fn encode_command(command: &Command) -> (message: String)
    ensures
        message@ == spec_encode(command@),
{
    match command {
        Command::Play => PLAY_WORD.to_owned(),
        Command::Pause => PAUSE_WORD.to_owned(),
        Command::SetDirectory(root) => join_text(DIRECTORY_PREFIX, root.as_str()),
    }
}

/// Every command is read back from its own message.
pub proof fn lemma_parse_encode(command: CommandView)
    ensures
        spec_parse(spec_encode(command)) == Some(command),
{
    reveal_strlit("PLAY");
    reveal_strlit("PAUSE");
    reveal_strlit("trackDir:");
    match command {
        CommandView::Play => {},
        CommandView::Pause => {
            assert(PAUSE_WORD@[1] != PLAY_WORD@[1]);
        },
        CommandView::SetDirectory(root) => {
            let message = DIRECTORY_PREFIX@ + root;
            assert(message[0] == 't');
            assert(PLAY_WORD@[0] == 'P');
            assert(PAUSE_WORD@[0] == 'P');
            assert(message.subrange(0, DIRECTORY_PREFIX@.len() as int) =~= DIRECTORY_PREFIX@);
            assert(message.skip(DIRECTORY_PREFIX@.len() as int) =~= root);
        },
    }
}

/// A message that stands for a command is the message of that command: no
/// two messages are read as the same command.
pub proof fn lemma_encode_parse(message: Seq<char>)
    requires
        spec_parse(message) is Some,
    ensures
        spec_encode(spec_parse(message).unwrap()) == message,
{
    if message != PLAY_WORD@ && message != PAUSE_WORD@ {
        let skipped = DIRECTORY_PREFIX@.len() as int;
        assert(message.subrange(0, skipped) + message.skip(skipped) =~= message);
    }
}

} // verus!
