//! The playback controller: the state that one tick of the player reads and
//! changes, and what each tick decides.

use vstd::prelude::*;

use crate::category::Category;
use crate::channel::Channel;
use crate::command::lemma_parse_encode;
use crate::command::parse_command;
use crate::command::spec_encode;
use crate::command::spec_parse;
use crate::command::Command;
use crate::command::CommandView;
use crate::inbox::Inbox;
use crate::track_root::category_directory;
use crate::track_root::TrackRoot;
use crate::track_source::Severity;
use crate::track_source::TrackError;

verus! {

/// Time between two ticks of the controller, in milliseconds. A command
/// waits at most this long in the inbox before it is applied.
pub const TICK_INTERVAL_MS: u64 = 500;

/// Whether the player as a whole is playing.
#[derive(Clone, Copy, Debug, PartialEq, Eq, Structural)]
pub enum PlaybackState {
    Playing,
    Paused,
}

/// What a tick asks of the audio devices of both channels.
#[derive(Clone, Copy, Debug, PartialEq, Eq, Structural)]
pub enum SinkAction {
    /// Let both queues advance.
    Resume,
    /// Hold both queues back.
    Suspend,
    /// Leave both as they are.
    Keep,
}

/// Mathematical form of a [`Controller`].
pub struct ControllerView {
    pub state: PlaybackState,
    pub root: Seq<char>,
    pub background: Channel,
    pub lofi: Channel,
}

impl ControllerView {
    /// What holds of every controller: each channel plays its own category,
    /// and both are held back exactly while the player is paused.
    pub open spec fn inv(self) -> bool {
        &&& self.background.category == Category::Background
        &&& self.lofi.category == Category::Lofi
        &&& self.background.paused == (self.state == PlaybackState::Paused)
        &&& self.lofi.paused == (self.state == PlaybackState::Paused)
    }

    /// A controller as it starts: playing, both queues empty.
    pub open spec fn initial(root: Seq<char>) -> ControllerView {
        ControllerView {
            state: PlaybackState::Playing,
            root,
            background: Channel::spec_new(Category::Background),
            lofi: Channel::spec_new(Category::Lofi),
        }
    }

    /// The channel of a category.
    pub open spec fn channel(self, category: Category) -> Channel {
        match category {
            Category::Background => self.background,
            Category::Lofi => self.lofi,
        }
    }

    /// The controller with the channel of a category replaced.
    pub open spec fn with_channel(self, category: Category, channel: Channel) -> ControllerView {
        match category {
            Category::Background => ControllerView { background: channel, ..self },
            Category::Lofi => ControllerView { lofi: channel, ..self },
        }
    }

    /// The directory that the next refill of a category reads.
    pub open spec fn directory(self, category: Category) -> Seq<char> {
        category_directory(self.root, category)
    }

    /// The controller after a command.
    pub open spec fn apply(self, command: CommandView) -> ControllerView {
        match command {
            CommandView::Play => ControllerView {
                state: PlaybackState::Playing,
                background: self.background.resumed(),
                lofi: self.lofi.resumed(),
                ..self
            },
            CommandView::Pause => ControllerView {
                state: PlaybackState::Paused,
                background: self.background.suspended(),
                lofi: self.lofi.suspended(),
                ..self
            },
            CommandView::SetDirectory(root) => ControllerView { root, ..self },
        }
    }

    /// The controller after what a tick found in the inbox: nothing, a
    /// message that stands for no command, or a command.
    pub open spec fn receive(self, message: Option<Seq<char>>) -> ControllerView {
        match message {
            Some(text) => match spec_parse(text) {
                Some(command) => self.apply(command),
                None => self,
            },
            None => self,
        }
    }

    /// The controller once the device of a category has reported whether
    /// its queue is empty.
    pub open spec fn observe(self, category: Category, empty: bool) -> ControllerView {
        self.with_channel(category, self.channel(category).observed(empty))
    }

    /// The directory that a refill of a category picks its track from: that
    /// of the category if its queue is empty, none if it holds audio.
    pub open spec fn refill_target(self, category: Category, empty: bool) -> Option<Seq<char>> {
        if empty {
            Some(self.directory(category))
        } else {
            None
        }
    }

    /// The controller after an attempt to refill the channel of a category.
    pub open spec fn finish_refill(self, category: Category, filled: bool) -> ControllerView {
        self.with_channel(category, self.channel(category).enqueued(filled))
    }
}

/// What a command asks of the audio devices.
pub open spec fn spec_sink_action(command: CommandView) -> SinkAction {
    match command {
        CommandView::Play => SinkAction::Resume,
        CommandView::Pause => SinkAction::Suspend,
        CommandView::SetDirectory(_) => SinkAction::Keep,
    }
}

/// What a tick asks of the audio devices, by what it found in the inbox.
pub open spec fn spec_message_action(message: Option<Seq<char>>) -> SinkAction {
    match message {
        Some(text) => match spec_parse(text) {
            Some(command) => spec_sink_action(command),
            None => SinkAction::Keep,
        },
        None => SinkAction::Keep,
    }
}

/// The line that the log gets for a failed refill, if any.
pub open spec fn spec_log_line(attempt: Result<(), TrackError>) -> Option<Seq<char>> {
    match attempt {
        Ok(_) => None,
        Err(error) => if error.spec_severity() == Severity::Silent {
            None
        } else {
            Some(error.spec_describe())
        },
    }
}

/// The playback state together with both channels. It is replaced as a
/// whole, so that state and channels never disagree.
#[derive(Clone, Copy, Debug, PartialEq, Eq, Structural)]
struct Deck {
    state: PlaybackState,
    background: Channel,
    lofi: Channel,
}

/// The playback controller. It owns the track root, the playback state and
/// the state of both channels; commands are the only way to change the first
/// two.
#[derive(Debug, PartialEq, Eq)]
pub struct Controller {
    root: TrackRoot,
    deck: Deck,
}

impl View for Controller {
    type V = ControllerView;

    closed spec fn view(&self) -> ControllerView {
        ControllerView {
            state: self.deck.state,
            root: self.root@,
            background: self.deck.background,
            lofi: self.deck.lofi,
        }
    }
}

impl Controller {
    #[verifier::type_invariant]
    spec fn channels_follow_state(&self) -> bool {
        self@.inv()
    }

    /// A controller that reads its tracks from below `root`. It starts
    /// playing, with both queues empty.
    pub fn new(root: String) -> (made: Controller)
        ensures
            made@ == ControllerView::initial(root@),
    {
        Controller {
            root: TrackRoot::new(root),
            deck: Deck {
                state: PlaybackState::Playing,
                background: Channel::new(Category::Background),
                lofi: Channel::new(Category::Lofi),
            },
        }
    }

    /// Starts the controller once the audio devices of both channels have
    /// been asked for. Without either device there is no playback: that is
    /// the one failure that stops the player.
    pub fn start(
        root: String,
        background_device: bool,
        lofi_device: bool,
    ) -> (started: Result<Controller, TrackError>)
        ensures
            match started {
                Ok(controller) => background_device && lofi_device && controller@
                    == ControllerView::initial(root@),
                Err(error) => !(background_device && lofi_device) && error
                    == TrackError::NoAudioDevice,
            },
    {
        if background_device && lofi_device {
            Ok(Controller::new(root))
        } else {
            Err(TrackError::NoAudioDevice)
        }
    }

    /// Whether the player is playing or paused.
    pub fn state(&self) -> (state: PlaybackState)
        ensures
            state == self@.state,
    {
        self.deck.state
    }

    /// The state of the channel of a category.
    pub fn channel(&self, category: Category) -> (channel: Channel)
        ensures
            channel == self@.channel(category),
            channel.category == category,
            channel.paused == (self@.state == PlaybackState::Paused),
    {
        proof {
            use_type_invariant(self);
        }
        match category {
            Category::Background => self.deck.background,
            Category::Lofi => self.deck.lofi,
        }
    }

    /// The track root.
    pub fn root(&self) -> (root: &String)
        ensures
            root@ == self@.root,
    {
        self.root.root()
    }

    /// The directory that the next refill of a category reads.
    pub fn directory(&self, category: Category) -> (directory: &String)
        ensures
            directory@ == self@.directory(category),
    {
        self.root.directory(category)
    }

    /// Applies a command and says what it asks of the audio devices.
    ///
    /// Play and pause set the state of the player and of both channels; a
    /// new directory replaces the track root and with it the directories of
    /// both categories. No command touches what is queued.
    pub fn apply(&mut self, command: Command) -> (action: SinkAction)
        ensures
            final(self)@ == old(self)@.apply(command@),
            action == spec_sink_action(command@),
    {
        proof {
            use_type_invariant(&*self);
        }
        let mut background: Channel = self.deck.background;
        let mut lofi: Channel = self.deck.lofi;
        match command {
            Command::Play => {
                background.play();
                lofi.play();
                self.deck = Deck { state: PlaybackState::Playing, background, lofi };
                SinkAction::Resume
            },
            Command::Pause => {
                background.pause();
                lofi.pause();
                self.deck = Deck { state: PlaybackState::Paused, background, lofi };
                SinkAction::Suspend
            },
            Command::SetDirectory(root) => {
                self.root = TrackRoot::new(root);
                SinkAction::Keep
            },
        }
    }

    /// Applies what a tick found in the inbox: nothing, a message that
    /// stands for no command and is passed over, or a command.
    pub fn receive(&mut self, message: Option<String>) -> (action: SinkAction)
        ensures
            final(self)@ == old(self)@.receive(message.deep_view()),
            action == spec_message_action(message.deep_view()),
    {
        match message {
            Some(text) => match parse_command(text.as_str()) {
                Some(command) => self.apply(command),
                None => SinkAction::Keep,
            },
            None => SinkAction::Keep,
        }
    }

    /// Takes at most one message out of the inbox, without waiting, and
    /// applies it as [`Controller::receive`] does. Whatever the inbox held,
    /// the controller has received exactly one thing: a message or nothing.
    pub fn poll(&mut self, inbox: &Inbox) -> (action: SinkAction)
        ensures
            exists|message: Option<Seq<char>>|
                #![auto]
                final(self)@ == old(self)@.receive(message) && action == spec_message_action(
                    message,
                ),
    {
        let message: Option<String> = inbox.next_message();
        self.receive(message)
    }

    /// Takes note of whether the queue of a category is empty, as its device
    /// reports it, and names the directory to pick a track from if it is.
    /// A channel that still holds audio is left alone.
    pub fn refill_target(&mut self, category: Category, empty: bool) -> (target: Option<String>)
        ensures
            final(self)@ == old(self)@.observe(category, empty),
            target.deep_view() == old(self)@.refill_target(category, empty),
    {
        proof {
            use_type_invariant(&*self);
        }
        let mut channel: Channel = self.channel(category);
        channel.observe(empty);
        self.put_channel(category, channel);
        if empty {
            Some(self.root.directory(category).clone())
        } else {
            None
        }
    }

    /// Takes note of how the refill of a category ended: with a track
    /// decoded and queued, or with the failure that left the channel empty
    /// until the next tick. Gives the line for the log, if the failure is
    /// worth one.
    pub fn finish_refill(
        &mut self,
        category: Category,
        attempt: Result<(), TrackError>,
    ) -> (line: Option<String>)
        ensures
            final(self)@ == old(self)@.finish_refill(category, attempt is Ok),
            line.deep_view() == spec_log_line(attempt),
    {
        proof {
            use_type_invariant(&*self);
        }
        let mut channel: Channel = self.channel(category);
        channel.enqueue(attempt);
        self.put_channel(category, channel);
        match attempt {
            Ok(_) => None,
            Err(error) => match error.severity() {
                Severity::Silent => None,
                _ => Some(error.describe()),
            },
        }
    }

    /// Replaces the channel of a category by one in the same state of play.
    fn put_channel(&mut self, category: Category, channel: Channel)
        requires
            channel.category == category,
            channel.paused == old(self)@.channel(category).paused,
        ensures
            final(self)@ == old(self)@.with_channel(category, channel),
    {
        proof {
            use_type_invariant(&*self);
        }
        match category {
            Category::Background => {
                self.deck = Deck { background: channel, ..self.deck };
            },
            Category::Lofi => {
                self.deck = Deck { lofi: channel, ..self.deck };
            },
        }
    }
}

impl ControllerView {
    /// The controller after the whole refill of one channel in a tick: the
    /// device reports whether the queue is empty, and only if it is, a track
    /// is picked and handed to the device, which ends as `attempt` says.
    pub open spec fn refill(
        self,
        category: Category,
        empty: bool,
        attempt: Result<(), TrackError>,
    ) -> ControllerView {
        let observed = self.observe(category, empty);
        if empty {
            observed.finish_refill(category, attempt is Ok)
        } else {
            observed
        }
    }

    /// The controller after one tick: what the inbox held is applied, then
    /// the background channel is refilled, then the lofi channel.
    pub open spec fn tick(
        self,
        message: Option<Seq<char>>,
        background_empty: bool,
        background_attempt: Result<(), TrackError>,
        lofi_empty: bool,
        lofi_attempt: Result<(), TrackError>,
    ) -> ControllerView {
        self.receive(message).refill(
            Category::Background,
            background_empty,
            background_attempt,
        ).refill(Category::Lofi, lofi_empty, lofi_attempt)
    }
}

/// A controller starts as one in which each channel plays its own category
/// and both are held back exactly while the player is paused, and every
/// step keeps it so: a command, a message, a report of a device, the end of
/// a refill.
pub proof fn lemma_steps_keep_inv(
    before: ControllerView,
    command: CommandView,
    message: Option<Seq<char>>,
    category: Category,
    empty: bool,
    filled: bool,
)
    requires
        before.inv(),
    ensures
        ControllerView::initial(before.root).inv(),
        before.apply(command).inv(),
        before.receive(message).inv(),
        before.observe(category, empty).inv(),
        before.finish_refill(category, filled).inv(),
{
}

/// Whatever a tick receives and however its refills end, the controller
/// stays one in which each channel plays its own category and both are held
/// back exactly while the player is paused.
pub proof fn lemma_tick_keeps_inv(
    before: ControllerView,
    message: Option<Seq<char>>,
    background_empty: bool,
    background_attempt: Result<(), TrackError>,
    lofi_empty: bool,
    lofi_attempt: Result<(), TrackError>,
)
    requires
        before.inv(),
    ensures
        before.tick(
            message,
            background_empty,
            background_attempt,
            lofi_empty,
            lofi_attempt,
        ).inv(),
{
}

/// After the refill of a channel, the channel holds audio unless it was
/// empty and the attempt to fill it failed: it is never left empty in a tick
/// in which a track was picked, opened and decoded. The other channel is not
/// touched, nor are the state of the player and the track root.
pub proof fn lemma_refill_fills_channel(
    before: ControllerView,
    category: Category,
    empty: bool,
    attempt: Result<(), TrackError>,
)
    ensures
        before.refill(category, empty, attempt).channel(category).queued == (!empty
            || attempt is Ok),
        before.refill(category, empty, attempt).channel(category.other()) == before.channel(
            category.other(),
        ),
        before.refill(category, empty, attempt).state == before.state,
        before.refill(category, empty, attempt).root == before.root,
{
}

/// After any tick, each channel either holds audio or was found empty and
/// could not be filled in that tick.
pub proof fn lemma_tick_fills_channels(
    before: ControllerView,
    message: Option<Seq<char>>,
    background_empty: bool,
    background_attempt: Result<(), TrackError>,
    lofi_empty: bool,
    lofi_attempt: Result<(), TrackError>,
)
    ensures
        ({
            let after = before.tick(
                message,
                background_empty,
                background_attempt,
                lofi_empty,
                lofi_attempt,
            );
            &&& after.background.queued == (!background_empty || background_attempt is Ok)
            &&& after.lofi.queued == (!lofi_empty || lofi_attempt is Ok)
        }),
{
}

/// Pausing a paused player changes nothing: two pauses in a row are one.
pub proof fn lemma_pause_is_idempotent(before: ControllerView)
    ensures
        before.apply(CommandView::Pause).state == PlaybackState::Paused,
        before.apply(CommandView::Pause).apply(CommandView::Pause) == before.apply(
            CommandView::Pause,
        ),
{
}

/// Playing a playing player changes nothing, and two plays in a row are one.
pub proof fn lemma_play_is_idempotent(before: ControllerView)
    ensures
        before.apply(CommandView::Play).state == PlaybackState::Playing,
        before.apply(CommandView::Play).apply(CommandView::Play) == before.apply(
            CommandView::Play,
        ),
        before.inv() && before.state == PlaybackState::Playing ==> before.apply(CommandView::Play)
            == before,
{
}

/// No command touches what is queued: pausing holds the audio back and
/// keeps it, and playing resumes what was held.
pub proof fn lemma_commands_keep_queues(before: ControllerView, command: CommandView)
    ensures
        before.apply(command).background.queued == before.background.queued,
        before.apply(command).lofi.queued == before.lofi.queued,
        before.apply(CommandView::Pause).apply(CommandView::Play).background
            == before.background.resumed(),
        before.apply(CommandView::Pause).apply(CommandView::Play).lofi == before.lofi.resumed(),
{
}

/// Once a new track root is set, the next refill of either category reads
/// from the directory of that category below the new root, whatever the
/// root was before. State and queues stay as they were.
pub proof fn lemma_set_directory_redirects_refills(before: ControllerView, root: Seq<char>)
    ensures
        before.apply(CommandView::SetDirectory(root)).refill_target(Category::Lofi, true) == Some(
            root + "/"@ + "lofiMusic"@,
        ),
        before.apply(CommandView::SetDirectory(root)).refill_target(Category::Background, true)
            == Some(root + "/"@ + "backgroundSound"@),
        before.apply(CommandView::SetDirectory(root)).state == before.state,
        before.apply(CommandView::SetDirectory(root)).background == before.background,
        before.apply(CommandView::SetDirectory(root)).lofi == before.lofi,
{
}

/// A controller that receives the message of a command applies that
/// command: what a sender writes is what the controller does.
pub proof fn lemma_receive_applies_sent_command(before: ControllerView, command: CommandView)
    ensures
        before.receive(Some(spec_encode(command))) == before.apply(command),
        spec_message_action(Some(spec_encode(command))) == spec_sink_action(command),
{
    lemma_parse_encode(command);
}

/// Of two new roots set one after the other, the later one alone counts.
pub proof fn lemma_later_directory_wins(before: ControllerView, first: Seq<char>, second: Seq<char>)
    ensures
        before.apply(CommandView::SetDirectory(first)).apply(CommandView::SetDirectory(second))
            == before.apply(CommandView::SetDirectory(second)),
{
}

} // verus!
