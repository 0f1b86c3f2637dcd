//! Log lines and the rotation of log files: when a file is rotated, which
//! backups move where, and what a line looks like. Touching the files is
//! the caller's business.

use crate::text::{decimal, push_decimal};
use vstd::prelude::*;
use vstd::string::*;

verus! {

/// A log file of this size or more is rotated before the next line.
pub const MAX_LOG_BYTES: u64 = 134_217_728;

/// Rotated files kept per log.
pub const MAX_LOG_BACKUPS: usize = 5;

/// The log file has to be rotated before it takes another line.
pub fn needs_rotation(size: u64) -> (rotate: bool)
    ensures
        rotate == (size >= MAX_LOG_BYTES),
{
    size >= MAX_LOG_BYTES
}

/// A log line: the time in seconds since the epoch in brackets, then the
/// message.
pub open spec fn log_line_text(timestamp: u64, message: Seq<char>) -> Seq<char> {
    "["@ + decimal(timestamp as nat) + "] "@ + message + "\n"@
}

pub fn log_line(timestamp: u64, message: &str) -> (line: String)
    ensures
        line@ == log_line_text(timestamp, message@),
{
    let mut line = String::from_str("[");
    push_decimal(&mut line, timestamp);
    line.append("] ");
    line.append(message);
    line.append("\n");
    line
}

/// The extension of backup number `index` of a log file.
pub fn backup_extension(index: usize) -> (extension: String)
    ensures
        extension@ == "log."@ + decimal(index as nat),
{
    let mut extension = String::from_str("log.");
    push_decimal(&mut extension, index as u64);
    extension
}

/// The moves of a rotation that keeps `max_backups` backups, in the order
/// they are made: the oldest backup is overwritten first, the live file,
/// number 0, becomes backup 1 last.
pub open spec fn rotation_moves(max_backups: usize) -> Seq<(usize, usize)> {
    Seq::new(
        max_backups as nat,
        |k: int| ((max_backups - 1 - k) as usize, (max_backups - k) as usize),
    )
}

/// The moves `(from, to)` of a rotation, in order. A move whose source
/// does not exist is skipped by the caller.
pub fn rotate_backups(max_backups: usize) -> (moves: Vec<(usize, usize)>)
    ensures
        moves@ == rotation_moves(max_backups),
{
    let mut moves: Vec<(usize, usize)> = Vec::new();
    let mut to: usize = max_backups;
    while to > 0
        invariant
            to <= max_backups,
            moves@.len() == max_backups - to,
            forall|k: int|
                0 <= k < moves@.len() ==> moves@[k] == (
                    (max_backups - 1 - k) as usize,
                    (max_backups - k) as usize,
                ),
        decreases to,
    {
        moves.push((to - 1, to));
        to = to - 1;
    }
    moves
}

} // verus!
