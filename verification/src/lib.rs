//! Workflow step engine: runs named steps of a declarative workflow, scans
//! their live output for success and failure markers, and decides what runs
//! next — another step, nothing, or the end of the whole program.

pub mod cfg;
pub mod engine;
pub mod links;
pub mod registry;
pub mod remote;
pub mod scan;
