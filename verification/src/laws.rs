//! What the functions of this library promise to their callers, one by one.
//!
//! A law speaks of a call: of what a function was given and of what it gave back. It says so on the
//! values themselves. Where a function changes what it was given, as resolving a seed and a profile
//! does, the law says on the values what the functions in its contract come to.

pub mod answering;
pub mod asking;
pub mod choosing;
pub mod cloning;
pub mod copying;
pub mod defaults;
pub mod deleting;
pub mod listing;
pub mod names;
pub mod paths;
pub mod records;
pub mod saving;
pub mod texts;
