//! Verified core of a runtime ability-display fix for a hooked game
//! process.
//!
//! The surrounding plugin attaches to two routines of the host engine and
//! rewrites a handful of code addresses.  Everything the plugin decides is
//! in this crate, stated over plain models of the engine's records: the
//! hook bodies ([`hooks`]), the list deduplication they rely on
//! ([`dedup`]), the record models ([`skills`]) and the no-op code patcher
//! ([`patch`]).  The plugin's own job is reduced to converting engine
//! records into these models and carrying the returned actions back
//! through the engine's primitives.

pub mod dedup;
pub mod hooks;
pub mod patch;
pub mod skills;
