//! Session coordination for a voice-channel music bot.
//!
//! One session exists per guild and is controlled by one owner at a time.  The
//! crate holds the decisions of that session as verified, synchronous
//! functions over plain values: the session state machine, its idle timeout,
//! the ownership transfer, the registry that finds a session by guild or by
//! owner, and the bridge from voice-transport disconnects to session
//! commands.  Everything that waits (queues, timers, the voice connection,
//! the audio producer) is performed by the caller, who hands each outcome
//! back as a plain value.

pub mod config;
pub mod creation;
pub mod error;
pub mod handle;
pub mod laws;
pub mod manager;
pub mod music;
pub mod protocol;
pub mod session;
pub mod stats;
pub mod storage;
pub mod text;
pub mod web;
