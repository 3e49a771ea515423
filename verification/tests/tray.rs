use lofi_player::command::Command;
use lofi_player::controller::Controller;
use lofi_player::controller::PlaybackState;
use lofi_player::tray::TrayMirror;
use lofi_player::tray::TrayReaction;
use lofi_player::tray::DIRECTORY_ITEM;
use lofi_player::tray::PAUSE_TITLE;
use lofi_player::tray::PLAY_TITLE;
use lofi_player::tray::QUIT_ITEM;
use lofi_player::tray::QUIT_TITLE;
use lofi_player::tray::TOGGLE_ITEM;

#[test]
fn menu_items_and_titles_are_fixed() {
    assert_eq!(QUIT_ITEM, "quit");
    assert_eq!(DIRECTORY_ITEM, "changeTrackDir");
    assert_eq!(TOGGLE_ITEM, "playPause-toggle");
    assert_eq!(QUIT_TITLE, "Quit");
    assert_eq!(PLAY_TITLE, "Play");
    assert_eq!(PAUSE_TITLE, "Pause");
}

#[test]
fn the_mirror_starts_playing_and_offers_to_pause() {
    let mirror = TrayMirror::new();
    assert_eq!(mirror.shown, PlaybackState::Playing);
    assert_eq!(mirror.toggle_title(), "Pause");
}

#[test]
fn the_toggle_item_alternates_between_pause_and_play() {
    let mut mirror = TrayMirror::new();
    assert_eq!(mirror.on_menu_click("playPause-toggle"), TrayReaction::Suspend);
    assert_eq!(mirror.shown, PlaybackState::Paused);
    assert_eq!(mirror.toggle_title(), "Play");
    assert_eq!(mirror.on_menu_click("playPause-toggle"), TrayReaction::Resume);
    assert_eq!(mirror.shown, PlaybackState::Playing);
    assert_eq!(mirror.toggle_title(), "Pause");
}

#[test]
fn the_other_items_leave_the_mirror() {
    let mut mirror = TrayMirror::new();
    assert_eq!(mirror.on_menu_click("changeTrackDir"), TrayReaction::ChooseDirectory);
    assert_eq!(mirror.on_menu_click("quit"), TrayReaction::Quit);
    assert_eq!(mirror, TrayMirror::new());
    mirror.on_menu_click("playPause-toggle");
    assert_eq!(mirror.on_menu_click("quit"), TrayReaction::Quit);
    assert_eq!(mirror.shown, PlaybackState::Paused);
}

#[test]
fn unknown_items_mean_nothing() {
    let mut mirror = TrayMirror::new();
    assert_eq!(mirror.on_menu_click(""), TrayReaction::Ignore);
    assert_eq!(mirror.on_menu_click("Quit"), TrayReaction::Ignore);
    assert_eq!(mirror.on_menu_click("playPause"), TrayReaction::Ignore);
    assert_eq!(mirror.on_menu_click("playPause-toggle "), TrayReaction::Ignore);
    assert_eq!(mirror, TrayMirror::new());
}

#[test]
fn only_the_toggle_sends_a_command() {
    assert_eq!(TrayReaction::Resume.command(), Some(Command::Play));
    assert_eq!(TrayReaction::Suspend.command(), Some(Command::Pause));
    assert_eq!(TrayReaction::ChooseDirectory.command(), None);
    assert_eq!(TrayReaction::Quit.command(), None);
    assert_eq!(TrayReaction::Ignore.command(), None);
}

#[test]
fn the_mirror_follows_the_controller_through_clicks() {
    let mut mirror = TrayMirror::new();
    let mut controller = Controller::new("/music".to_string());
    for id in vec![
        "playPause-toggle",
        "quit",
        "playPause-toggle",
        "changeTrackDir",
        "playPause-toggle",
        "nothing",
    ] {
        let reaction = mirror.on_menu_click(id);
        if let Some(command) = reaction.command() {
            controller.apply(command);
        }
        assert_eq!(controller.state(), mirror.shown);
    }
    assert_eq!(mirror.shown, PlaybackState::Paused);
}
