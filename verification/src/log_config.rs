//! Where the SDK's log file goes.

use vstd::prelude::*;
use std::path::PathBuf;

verus! {

/// The directory chosen for the log file.
#[derive(Debug)]
pub enum LogDir {
    /// The directory the caller gave.
    Given(PathBuf),
    /// `<data home>/opencode-sdk`, under the configured data home (`XDG_DATA_HOME`).
    UnderDataHome(String),
    /// `<home>/.local/share/opencode-sdk`, under the home directory (`HOME`).
    UnderHome(String),
    /// The current directory.
    Current,
}

/// The log directory: the one given; else under the data home when it is
/// set; else under the home directory when it is set; else the current directory.
pub fn log_dir_choice(log_dir: Option<PathBuf>, data_home: Option<String>, home: Option<String>) -> (r: LogDir)
    ensures
        match log_dir {
            Some(d) => r == LogDir::Given(d),
            None => match data_home {
                Some(x) => r matches LogDir::UnderDataHome(y) && y@ == x@,
                None => match home {
                    Some(h) => r matches LogDir::UnderHome(y) && y@ == h@,
                    None => r is Current,
                },
            },
        },
{
    match log_dir {
        Some(d) => LogDir::Given(d),
        None => match data_home {
            Some(x) => LogDir::UnderDataHome(x),
            None => match home {
                Some(h) => LogDir::UnderHome(h),
                None => LogDir::Current,
            },
        },
    }
}

} // verus!
