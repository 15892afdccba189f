//! A playback-queue controller for a local music player, with verified
//! queue, cursor and buffering logic.
//!
//! The heart of the crate is [`player::MusicPlayer`]: it owns an ordered
//! queue of tracks, a current-position cursor and a repeat-mode policy, and
//! drives a small decode buffer — at most the audible stream plus one
//! look-ahead stream — into an audio output sink so that track transitions
//! are gapless. Every operation on the controller carries a contract that
//! pins down the cursor, the queue and the sink state it leaves behind.
//!
//! Opening files, decoding audio and producing sound are the embedding
//! shell's business. The controller sees the outcome of each attempt to
//! open a track as a plain [`player::SourceOutcome`] value, and records the
//! commands it issues to the output device in a [`sink::Sink`] model that
//! the shell mirrors onto the real device.

pub mod db;
pub mod player;
pub mod sink;
pub mod types;
