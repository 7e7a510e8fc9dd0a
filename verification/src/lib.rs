//! Verified core of a small desktop file-manager backend.
//!
//! The heart of the library is the directory scanner: a filter that decides
//! which files belong in a scan by their extension, and a traversal that
//! walks a directory tree (given to the library as a plain value) and
//! collects a record for every matching file.  Around it stand the pure
//! parts of the remaining host operations: building log lines with a
//! calendar timestamp, assembling host system information, and formatting
//! the strings the host shell shows.  All filesystem, clock and environment
//! reads happen outside the library and hand in plain values.
use vstd::prelude::*;
use vstd::string::StringExecFns;

pub mod filter;
pub mod logging;
pub mod record;
pub mod scan;
pub mod sysinfo;
pub mod text;

verus! {

/// Greeting returned to the host shell, built around the caller's name.
pub fn greet(name: &str) -> (r: String)
    ensures
        r@ == "Hello, "@ + name@ + "! You've been greeted from Rust!"@,
{
    let s = String::from_str("Hello, ");
    let s = s.concat(name);
    let s = s.concat("! You've been greeted from Rust!");
    s
}

/// Failure message for a file read, wrapped around the host's own error
/// text.  The read itself is the host's part; on success the content is
/// returned as it came.
pub fn read_failure_message(detail: &str) -> (r: String)
    ensures
        r@ == "failed to read file: "@ + detail@,
{
    String::from_str("failed to read file: ").concat(detail)
}

} // verus!
