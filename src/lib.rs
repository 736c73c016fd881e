//! Audio cues for a small arcade game: a registry of one-shot sound effects,
//! the decision of when a cue is played, and an endless playlist cursor over
//! the music tracks.
pub mod cues;
pub mod handle;
pub mod music;
pub mod setup;
