//! A small music player core: a playlist and song library, a streaming
//! audio decoder built on symphonia, and the playback engine state that a
//! user interface polls and controls.
//!
//! Two roles drive a playback session: a producer repeatedly asks
//! [`player::Player::next_sample`] for the next sample, and a controller
//! calls the query and command methods. Their only meeting point is the
//! session's [`decoder::DecoderControl`]: seeks are last-write-wins and
//! are consumed by the producer before it emits its next sample, and a
//! seek target is reported as the elapsed time at once. Callers that run
//! the two roles on different threads share the engine behind a lock held
//! only for single calls, none of which blocks on the byte source.

pub mod backend;
pub mod config;
pub mod decoder;
pub mod display;
pub mod library;
pub mod player;
pub mod playlist;
pub mod search;
pub mod text;
pub mod timebase;
