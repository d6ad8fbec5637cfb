//! Shared state across the dynamic libraries of one process.
//!
//! When the same code is linked into several dynamic libraries, each copy has
//! its own instance of every global it declares. A [`CrossDylib`] lets the
//! copies find each other and settle on one shared instance: the first copy
//! to synchronize creates it, every later one adopts it.

pub mod failure;
pub mod laws;
pub mod process;
pub mod scan;
pub mod slot;
pub mod symbol;

pub use failure::{is_symbol_absent, DiscoveryError, LookupFailure};
pub use scan::{ProbeOutcome, ScanControl, SlotView};
pub use slot::{CrossDylib, __new_container};
pub use symbol::{is_valid_symbol, probe_symbol};
