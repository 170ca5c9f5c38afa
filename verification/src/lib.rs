//! Key bindings for a terminal block game: the key model, the match
//! predicate, the configuration record with its decoding from JSON text,
//! the start-up loading protocol and the derived help lines.

pub mod cell;
pub mod config;
pub mod json;
pub mod keys;
pub mod loader;
pub mod location;
pub mod scores;
