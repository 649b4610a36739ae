//! What the command line says of a run.
use std::path::PathBuf;
use vstd::prelude::*;

verus! {

/// Number of tasks that run side by side when the command line names none.
pub const DEFAULT_PARALLEL: usize = 4;

/// CLI arguments.
#[derive(Debug)]
pub struct Args {
    /// Run in quiet mode (no banner, minimal output).
    pub quiet: bool,
    /// Run in dry-run mode (show what would be executed).
    pub dry_run: bool,
    /// Run specific groups only.
    pub groups: Option<Vec<String>>,
    /// Skip specific groups.
    pub skip_groups: Option<Vec<String>>,
    /// Maximum parallel tasks.
    pub parallel: usize,
    /// Config file path.
    pub config: Option<PathBuf>,
    /// Generate default config and exit.
    pub init: bool,
    /// List all configured tasks and exit.
    pub list: bool,
    /// Force run without confirmations.
    pub force: bool,
    /// Enable verbose output.
    pub verbose: bool,
}

} // verus!
