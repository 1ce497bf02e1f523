//! The durable ledger for a console-less app: engine lifecycle lines in
//! engine.log, stamped with Unix seconds. A full file is shelved, never
//! truncated, because the tail under investigation may be in it.

use crate::text::{decimal, decimal_string};
use vstd::prelude::*;

verus! {

/// The lifecycle log's file name in the app config dir.
pub const ENGINE_LOG: &'static str = "engine.log";

/// Where a full lifecycle log is shelved (replacing an older shelf).
pub const ENGINE_LOG_SHELF: &'static str = "engine-old.log";

/// A log larger than this is shelved before the next line.
pub const MAX_BYTES: u64 = 256 * 1024;

/// Whether the log must be shelved before appending, given its size
/// (`None` when it cannot be read, which never shelves).
pub fn needs_shelving(size: Option<u64>) -> (shelve: bool)
    ensures
        shelve == (size matches Some(n) && n > MAX_BYTES),
{
    match size {
        Some(n) => n > MAX_BYTES,
        None => false,
    }
}

/// One log line: the Unix-seconds stamp, a space, the message.
pub fn log_line(stamp: u64, line: &str) -> (out: String)
    ensures
        out@ == decimal(stamp as nat) + " "@ + line@,
{
    let mut out = decimal_string(stamp);
    out.append(" ");
    out.append(line);
    out
}

} // verus!
