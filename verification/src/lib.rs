//! A playback session for a terminal music player: one external player
//! process, a queue of tracks behind it, and the rules by which transient
//! stream files are resolved, played and reclaimed.

pub mod app;
pub mod display;
pub mod laws;
pub mod library;
pub mod naming;
pub mod player;
pub mod protocol;
pub mod search;
pub mod session;
pub mod text;
pub mod tools;

pub use app::App;
pub use player::Player;
