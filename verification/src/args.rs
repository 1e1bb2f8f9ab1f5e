//! The command line of the client.
use vstd::prelude::*;

verus! {

/// The client's command line: the configuration file, the log filter and an
/// optional log file.
#[derive(Debug)]
pub struct Args {
    pub config_path: String,
    pub log_level: String,
    pub log_file: Option<String>,
}

} // verus!
