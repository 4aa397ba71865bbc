//! Login seeds for browser sessions.
//!
//! A seed is a saved copy of a Chrome profile. Sessions that should start logged in clone a seed,
//! so that several of them can run side by side, which a profile itself does not allow. This library
//! decides what the `seed` command does and what it answers, and describes the defaults that
//! sessions start with. It does no input or output of its own: where files have to be read, copied
//! or removed, it says what is to be done next and is told what came of it.

pub mod clone_seed;
pub mod command;
pub mod copy;
pub mod defaults;
pub mod delete;
pub mod json;
pub mod laws;
pub mod listing;
pub mod metadata;
pub mod mirror;
pub mod name;
pub mod paths;
pub mod save;
pub mod selection;
pub mod text;
