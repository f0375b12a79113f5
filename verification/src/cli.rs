//! The command-line options the capture program runs under, as plain data;
//! parsing them from the process arguments belongs to the program around
//! the library.

use vstd::prelude::*;

verus! {

/// How verbose the program's logging runs.
#[derive(Clone, Copy, Debug, PartialEq, Eq, Structural)]
pub enum LogLevel {
    Debug,
    Info,
    Error,
}

/// The capture program's options: an optional capture-device selection,
/// whether to store every captured frame, the log level, and whether to
/// also write logs to a file.
#[derive(Clone, Debug)]
pub struct Cli {
    pub vendor_id: Option<String>,
    pub product_id: Option<String>,
    pub store_frames: bool,
    pub log: LogLevel,
    pub store_logs: bool,
}

} // verus!
