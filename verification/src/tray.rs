//! What a click on the tray menu means: which command it sends and what the
//! menu shows afterwards.

use vstd::prelude::*;

use crate::command::Command;
use crate::command::CommandView;
use crate::controller::ControllerView;
use crate::controller::PlaybackState;
use crate::text::same_text;

verus! {

/// Identifier of the menu item that ends the program.
pub const QUIT_ITEM: &'static str = "quit";

/// Identifier of the menu item that asks for a new track root.
pub const DIRECTORY_ITEM: &'static str = "changeTrackDir";

/// Identifier of the menu item that toggles between play and pause.
pub const TOGGLE_ITEM: &'static str = "playPause-toggle";

/// Title of the item that ends the program.
pub const QUIT_TITLE: &'static str = "Quit";

/// Title of the toggle item while the player is paused.
pub const PLAY_TITLE: &'static str = "Play";

/// Title of the toggle item while the player is playing.
pub const PAUSE_TITLE: &'static str = "Pause";

/// What the user interface does on a click.
#[derive(Clone, Copy, Debug, PartialEq, Eq, Structural)]
pub enum TrayReaction {
    /// Send the play command and offer to pause.
    Resume,
    /// Send the pause command and offer to play.
    Suspend,
    /// Ask the user for a new track root.
    ChooseDirectory,
    /// End the program.
    Quit,
    /// The click means nothing.
    Ignore,
}

/// The reaction to a click on the item `id` while the menu shows `shown`.
pub open spec fn spec_reaction(shown: PlaybackState, id: Seq<char>) -> TrayReaction {
    if id == TOGGLE_ITEM@ {
        match shown {
            PlaybackState::Playing => TrayReaction::Suspend,
            PlaybackState::Paused => TrayReaction::Resume,
        }
    } else if id == DIRECTORY_ITEM@ {
        TrayReaction::ChooseDirectory
    } else if id == QUIT_ITEM@ {
        TrayReaction::Quit
    } else {
        TrayReaction::Ignore
    }
}

/// What the menu shows after a reaction.
pub open spec fn spec_shown_after(shown: PlaybackState, reaction: TrayReaction) -> PlaybackState {
    match reaction {
        TrayReaction::Resume => PlaybackState::Playing,
        TrayReaction::Suspend => PlaybackState::Paused,
        _ => shown,
    }
}

impl TrayReaction {
    /// The command that the reaction sends, if it sends one.
    pub open spec fn spec_command(self) -> Option<CommandView> {
        match self {
            TrayReaction::Resume => Some(CommandView::Play),
            TrayReaction::Suspend => Some(CommandView::Pause),
            _ => None,
        }
    }

    /// The command that the reaction sends, if it sends one.
    pub fn command(self) -> (command: Option<Command>)
        ensures
            command.deep_view() == self.spec_command(),
    {
        match self {
            TrayReaction::Resume => Some(Command::Play),
            TrayReaction::Suspend => Some(Command::Pause),
            _ => None,
        }
    }
}

/// The title of the toggle item for a state of the player: it names what a
/// click would do.
pub open spec fn spec_toggle_title(shown: PlaybackState) -> Seq<char> {
    match shown {
        PlaybackState::Playing => PAUSE_TITLE@,
        PlaybackState::Paused => PLAY_TITLE@,
    }
}

/// The user interface's own copy of the playback state. It is kept for the
/// title of the toggle item only and follows the clicks, not the controller.
#[derive(Clone, Copy, Debug, PartialEq, Eq, Structural)]
pub struct TrayMirror {
    /// The state that the menu shows.
    pub shown: PlaybackState,
}

impl TrayMirror {
    /// The mirror at the start of the program: the player is playing.
    pub fn new() -> (made: TrayMirror)
        ensures
            made.shown == PlaybackState::Playing,
    {
        TrayMirror { shown: PlaybackState::Playing }
    }

    /// The title that the toggle item has now.
    pub fn toggle_title(&self) -> (title: &'static str)
        ensures
            title@ == spec_toggle_title(self.shown),
    {
        match self.shown {
            PlaybackState::Playing => PAUSE_TITLE,
            PlaybackState::Paused => PLAY_TITLE,
        }
    }

    /// Reacts to a click on the menu item `id`. A click on the toggle item
    /// flips the mirror; every other click leaves it.
    pub fn on_menu_click(&mut self, id: &str) -> (reaction: TrayReaction)
        ensures
            reaction == spec_reaction(old(self).shown, id@),
            final(self).shown == spec_shown_after(old(self).shown, reaction),
    {
        if same_text(id, TOGGLE_ITEM) {
            match self.shown {
                PlaybackState::Playing => {
                    self.shown = PlaybackState::Paused;
                    TrayReaction::Suspend
                },
                PlaybackState::Paused => {
                    self.shown = PlaybackState::Playing;
                    TrayReaction::Resume
                },
            }
        } else if same_text(id, DIRECTORY_ITEM) {
            TrayReaction::ChooseDirectory
        } else if same_text(id, QUIT_ITEM) {
            TrayReaction::Quit
        } else {
            TrayReaction::Ignore
        }
    }
}

/// A mirror that shows the controller's state still shows it after any
/// click, once the controller has applied the command that the click sent.
pub proof fn lemma_mirror_follows_controller(
    controller: ControllerView,
    shown: PlaybackState,
    id: Seq<char>,
)
    requires
        controller.state == shown,
    ensures
        ({
            let reaction = spec_reaction(shown, id);
            let after = match reaction.spec_command() {
                Some(command) => controller.apply(command),
                None => controller,
            };
            after.state == spec_shown_after(shown, reaction)
        }),
{
}

} // verus!
