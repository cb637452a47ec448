//! Core of a conversational matchmaking service: the per-user dialogue
//! state machine, the mutual-consent candidate filter and the like/match
//! protocol, verified over an in-memory model of the persistent store.
//! Transport, real storage and geocoding are outside collaborators; the
//! library only decides what to read, write and send.

pub mod actions;
pub mod application;
pub mod callback;
pub mod commands;
pub mod common;
pub mod error;
pub mod database;
pub mod filter;
pub mod maps;
pub mod parsing;
pub mod perform;
pub mod profile;
pub mod state;
pub mod strutil;
pub mod text;
pub mod user;
