use lofi_player::category::Category;
use lofi_player::command::Command;
use lofi_player::controller::Controller;
use lofi_player::controller::PlaybackState;
use lofi_player::controller::SinkAction;
use lofi_player::controller::TICK_INTERVAL_MS;
use lofi_player::track_source::TrackError;

#[test]
fn tick_interval_is_half_a_second() {
    assert_eq!(TICK_INTERVAL_MS, 500);
}

#[test]
fn a_new_controller_plays_with_empty_channels() {
    let controller = Controller::new("/music".to_string());
    assert_eq!(controller.state(), PlaybackState::Playing);
    assert_eq!(controller.root(), "/music");
    for category in vec![Category::Background, Category::Lofi] {
        let channel = controller.channel(category);
        assert_eq!(channel.category, category);
        assert!(channel.is_empty());
        assert!(!channel.is_paused());
    }
}

#[test]
fn directories_are_below_the_root() {
    let controller = Controller::new("/music".to_string());
    assert_eq!(controller.directory(Category::Lofi), "/music/lofiMusic");
    assert_eq!(
        controller.directory(Category::Background),
        "/music/backgroundSound"
    );
}

#[test]
fn start_needs_both_audio_devices() {
    assert_eq!(
        Controller::start("/music".to_string(), false, true),
        Err(TrackError::NoAudioDevice)
    );
    assert_eq!(
        Controller::start("/music".to_string(), true, false),
        Err(TrackError::NoAudioDevice)
    );
    assert_eq!(
        Controller::start("/music".to_string(), false, false),
        Err(TrackError::NoAudioDevice)
    );
    assert_eq!(
        Controller::start("/music".to_string(), true, true),
        Ok(Controller::new("/music".to_string()))
    );
}

#[test]
fn pause_twice_leaves_the_player_paused() {
    let mut controller = Controller::new("/music".to_string());
    assert_eq!(controller.apply(Command::Pause), SinkAction::Suspend);
    assert_eq!(controller.state(), PlaybackState::Paused);
    assert_eq!(controller.apply(Command::Pause), SinkAction::Suspend);
    assert_eq!(controller.state(), PlaybackState::Paused);
    assert!(controller.channel(Category::Background).is_paused());
    assert!(controller.channel(Category::Lofi).is_paused());
}

#[test]
fn play_while_playing_changes_nothing() {
    let mut controller = Controller::new("/music".to_string());
    assert_eq!(controller.apply(Command::Play), SinkAction::Resume);
    assert_eq!(controller, Controller::new("/music".to_string()));
    assert_eq!(controller.state(), PlaybackState::Playing);
}

#[test]
fn play_after_pause_resumes_both_channels() {
    let mut controller = Controller::new("/music".to_string());
    controller.apply(Command::Pause);
    assert_eq!(controller.apply(Command::Play), SinkAction::Resume);
    assert_eq!(controller.state(), PlaybackState::Playing);
    assert!(!controller.channel(Category::Background).is_paused());
    assert!(!controller.channel(Category::Lofi).is_paused());
}

#[test]
fn set_directory_moves_both_category_directories() {
    let mut controller = Controller::new("/old".to_string());
    assert_eq!(
        controller.apply(Command::SetDirectory("/new/place".to_string())),
        SinkAction::Keep
    );
    assert_eq!(controller.root(), "/new/place");
    assert_eq!(controller.directory(Category::Lofi), "/new/place/lofiMusic");
    assert_eq!(
        controller.directory(Category::Background),
        "/new/place/backgroundSound"
    );
    assert_eq!(
        controller.refill_target(Category::Lofi, true),
        Some("/new/place/lofiMusic".to_string())
    );
    assert_eq!(
        controller.refill_target(Category::Background, true),
        Some("/new/place/backgroundSound".to_string())
    );
}

#[test]
fn set_directory_leaves_state_and_queues() {
    let mut controller = Controller::new("/old".to_string());
    controller.apply(Command::Pause);
    controller.finish_refill(Category::Lofi, Ok(()));
    controller.apply(Command::SetDirectory("/new".to_string()));
    assert_eq!(controller.state(), PlaybackState::Paused);
    assert!(!controller.channel(Category::Lofi).is_empty());
    assert!(controller.channel(Category::Background).is_empty());
}

#[test]
fn the_later_of_two_directories_counts() {
    let mut twice = Controller::new("/old".to_string());
    twice.apply(Command::SetDirectory("/first".to_string()));
    twice.apply(Command::SetDirectory("/second".to_string()));
    let mut once = Controller::new("/old".to_string());
    once.apply(Command::SetDirectory("/second".to_string()));
    assert_eq!(twice, once);
}

#[test]
fn receive_applies_a_message_that_is_a_command() {
    let mut controller = Controller::new("/music".to_string());
    assert_eq!(
        controller.receive(Some("PAUSE".to_string())),
        SinkAction::Suspend
    );
    assert_eq!(controller.state(), PlaybackState::Paused);
    assert_eq!(
        controller.receive(Some("PLAY".to_string())),
        SinkAction::Resume
    );
    assert_eq!(controller.state(), PlaybackState::Playing);
    assert_eq!(
        controller.receive(Some("trackDir:/elsewhere".to_string())),
        SinkAction::Keep
    );
    assert_eq!(controller.root(), "/elsewhere");
}

#[test]
fn receive_passes_over_nothing_and_noise() {
    let mut controller = Controller::new("/music".to_string());
    controller.apply(Command::Pause);
    let mut expected = Controller::new("/music".to_string());
    expected.apply(Command::Pause);
    assert_eq!(controller.receive(None), SinkAction::Keep);
    assert_eq!(controller, expected);
    assert_eq!(controller.receive(Some("STOP".to_string())), SinkAction::Keep);
    assert_eq!(controller.receive(Some(String::new())), SinkAction::Keep);
    assert_eq!(controller, expected);
}

#[test]
fn a_channel_that_holds_audio_is_not_refilled() {
    let mut controller = Controller::new("/music".to_string());
    assert_eq!(controller.refill_target(Category::Lofi, false), None);
    assert!(!controller.channel(Category::Lofi).is_empty());
    assert!(controller.channel(Category::Background).is_empty());
}

#[test]
fn an_empty_channel_is_refilled_from_its_directory() {
    let mut controller = Controller::new("/music".to_string());
    assert_eq!(
        controller.refill_target(Category::Background, true),
        Some("/music/backgroundSound".to_string())
    );
    assert_eq!(controller.finish_refill(Category::Background, Ok(())), None);
    assert!(!controller.channel(Category::Background).is_empty());
    assert!(controller.channel(Category::Lofi).is_empty());
}

#[test]
fn a_drained_channel_is_seen_empty_again() {
    let mut controller = Controller::new("/music".to_string());
    controller.finish_refill(Category::Lofi, Ok(()));
    assert!(!controller.channel(Category::Lofi).is_empty());
    assert_eq!(
        controller.refill_target(Category::Lofi, true),
        Some("/music/lofiMusic".to_string())
    );
    assert!(controller.channel(Category::Lofi).is_empty());
}

#[test]
fn a_failed_refill_leaves_the_channel_empty() {
    for error in vec![
        TrackError::DirectoryUnavailable,
        TrackError::NoTrackAvailable,
        TrackError::FileUnreadable,
        TrackError::UnsupportedFormat,
    ] {
        let mut controller = Controller::new("/music".to_string());
        controller.refill_target(Category::Lofi, true);
        controller.finish_refill(Category::Lofi, Err(error));
        assert!(controller.channel(Category::Lofi).is_empty());
        assert_eq!(controller.state(), PlaybackState::Playing);
    }
}

#[test]
fn skipped_tracks_are_logged_and_missing_ones_are_not() {
    let mut controller = Controller::new("/music".to_string());
    assert_eq!(
        controller.finish_refill(Category::Lofi, Err(TrackError::DirectoryUnavailable)),
        None
    );
    assert_eq!(
        controller.finish_refill(Category::Lofi, Err(TrackError::NoTrackAvailable)),
        None
    );
    assert_eq!(
        controller.finish_refill(Category::Lofi, Err(TrackError::FileUnreadable)),
        Some("track cannot be opened".to_string())
    );
    assert_eq!(
        controller.finish_refill(Category::Lofi, Err(TrackError::UnsupportedFormat)),
        Some("track is not in a supported audio format".to_string())
    );
    assert_eq!(controller.finish_refill(Category::Lofi, Ok(())), None);
}
