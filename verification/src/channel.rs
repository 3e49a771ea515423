//! What the controller knows of one playback channel.

use vstd::prelude::*;

use crate::category::Category;
use crate::track_source::TrackError;

verus! {

/// The state of one playback channel: an audio queue on one output device,
/// at the fixed volume of its category.
///
/// The queue itself lives with the audio device; here stands what the
/// controller decides on: whether the queue advances and whether it holds
/// audio.
#[derive(Clone, Copy, Debug, PartialEq, Eq, Structural)]
pub struct Channel {
    /// The role that the channel plays.
    pub category: Category,
    /// Whether queued audio is held back.
    pub paused: bool,
    /// Whether the queue holds audio.
    pub queued: bool,
}

impl Channel {
    /// A channel as it is made: playing, with an empty queue.
    pub open spec fn spec_new(category: Category) -> Channel {
        Channel { category, paused: false, queued: false }
    }

    /// The channel with its queue advancing. The queue is untouched.
    pub open spec fn resumed(self) -> Channel {
        Channel { paused: false, ..self }
    }

    /// The channel with its queue held back. The queue is untouched.
    pub open spec fn suspended(self) -> Channel {
        Channel { paused: true, ..self }
    }

    /// The channel once its device has reported whether the queue is empty.
    pub open spec fn observed(self, empty: bool) -> Channel {
        Channel { queued: !empty, ..self }
    }

    /// The channel after an attempt to append a track: audio is queued if the
    /// attempt succeeded, and what was queued before stays.
    pub open spec fn enqueued(self, appended: bool) -> Channel {
        Channel { queued: self.queued || appended, ..self }
    }

    /// A channel as it is made: playing, with an empty queue.
    pub fn new(category: Category) -> (made: Channel)
        ensures
            made == Channel::spec_new(category),
    {
        Channel { category, paused: false, queued: false }
    }

    /// True when no queued audio remains.
    pub fn is_empty(&self) -> (empty: bool)
        ensures
            empty == !self.queued,
    {
        !self.queued
    }

    /// True while queued audio is held back.
    pub fn is_paused(&self) -> (paused: bool)
        ensures
            paused == self.paused,
    {
        self.paused
    }

    /// The fixed volume of the channel, in hundredths of full volume.
    pub fn volume_percent(&self) -> (percent: u8)
        ensures
            percent == self.category.spec_volume_percent(),
    {
        self.category.volume_percent()
    }

    /// Lets queued audio advance. Doing so twice is doing so once.
    pub fn play(&mut self)
        ensures
            *final(self) == old(self).resumed(),
    {
        self.paused = false;
    }

    /// Holds queued audio back. Doing so twice is doing so once.
    pub fn pause(&mut self)
        ensures
            *final(self) == old(self).suspended(),
    {
        self.paused = true;
    }

    /// Takes note of what the device reports of its queue.
    pub fn observe(&mut self, empty: bool)
        ensures
            *final(self) == old(self).observed(empty),
    {
        self.queued = !empty;
    }

    /// Takes note of an attempt to decode a track and append it to the
    /// queue. A failed attempt leaves the channel as it was.
    pub fn enqueue(&mut self, attempt: Result<(), TrackError>)
        ensures
            *final(self) == old(self).enqueued(attempt is Ok),
    {
        match attempt {
            Ok(_) => {
                self.queued = true;
            },
            Err(_) => {},
        }
    }
}

} // verus!
