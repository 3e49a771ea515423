//! Decision logic of a small background-audio player: two playback channels
//! ("background" ambience and "lofi" music) kept filled from randomly chosen
//! tracks, driven by play / pause / set-directory commands.

pub mod category;
pub mod channel;
pub mod command;
pub mod config;
pub mod controller;
pub mod inbox;
pub mod text;
pub mod track_root;
pub mod track_source;
pub mod tray;
