//! A vulnerability-probing engine: compiled-in probes and sandboxed plugins
//! run against one target, and their findings are merged into one scan run.
//!
//! - `finding`: findings, severities and the severity sort.
//! - `abi`: the byte encoding exchanged with a sandboxed guest.
//! - `session`: what the host decides while running one sandbox session.
//! - `modules`: the compiled-in probes.
//! - `orchestrator`: scan phases and the fold of probe outcomes.
//! - `config`, `report`, `scanner`: settings, report order, directory
//!   enumeration.
use vstd::prelude::*;

pub mod finding;
pub mod abi;
pub mod modules;
pub mod session;
pub mod orchestrator;
pub mod config;
pub mod report;
pub mod scanner;

verus! {

} // verus!
