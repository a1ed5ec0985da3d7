//! Core of a terminal audio player: the play queue with its selection and
//! now-playing cursors, the player state machine and the decisions of its
//! playback loop, spectrum banding for display, the file browser's
//! navigation, the dispatch of user actions, and the storage behind the log
//! view.
pub mod actions;
pub mod app;
pub mod duration_format;
pub mod files;
pub mod frame;
pub mod logger;
pub mod player;
pub mod queue;
pub mod song;
pub mod visualization;
