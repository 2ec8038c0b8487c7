//! Decision logic of a voice-channel jukebox bot.
//!
//! The bot joins the voice channel of whoever asks, resolves a link or a
//! search query to an audio source and queues it. Everything the bot decides
//! is in this crate and is verified; talking to the chat service and to the
//! audio backend is left to the caller.
//!
//! - [`text`]: the texts the bot sends, and what counts as a link;
//! - [`voice`]: who is in which voice channel of a guild;
//! - [`request`]: what a play command asks for;
//! - [`play`] and [`leave`]: the two commands, each as a machine that is told
//!   what happened and says what to do next.

pub mod text;
pub mod voice;
pub mod request;
pub mod play;
pub mod leave;
