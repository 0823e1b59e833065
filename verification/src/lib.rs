//! Core state of a farm configuration panel: per-entry validated input
//! fields, change tracking for minimal re-rendering, and the update protocol
//! that reports aggregate validity changes to an owning collection.

pub mod entry;
pub mod field;
pub mod size;
