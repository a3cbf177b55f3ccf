//! The decision logic of a terminal music player: library search and
//! selection, the playlist, the reaction to player and YouTube events, the
//! playback backend's state machine, and the text shown on screen.

pub mod text;
pub mod path;
pub mod youtube;
pub mod player;
pub mod cover;
pub mod music;
pub mod audio;
pub mod library;
pub mod app;
pub mod view;
pub mod laws;
pub mod event;
