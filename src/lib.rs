//! Journaled reorganization of an inbox directory: rule-based classification,
//! reversible moves, an append-only undo journal and a stability-aware watcher.
//!
//! Everything here is pure decision logic over plain values. The filesystem,
//! the notification source and the journal file itself are driven by the
//! caller, which reports what happened back to these functions.
pub mod cleaner;
pub mod config;
pub mod mover;
pub mod paths;
pub mod pattern;
pub mod rules;
pub mod search;
pub mod state;
pub mod stats;
pub mod undo;
pub mod watcher;
