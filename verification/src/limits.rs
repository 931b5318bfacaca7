//! The deadlines and caps that producers of the broadcast and its consumers share.
use vstd::prelude::*;

verus! {

/// The deadline of a send, in whole seconds, where nothing else is asked for. A healthy send takes
/// milliseconds; this caps a wedged one.
pub const DEFAULT_PIPE_TIMEOUT_SECS: u64 = 5;

/// The deadline of a `running` heartbeat, in whole seconds.
///
/// Heartbeats are sent at every tool call, twice. One that expires is replaced by the next, so the
/// hot path gives up early, while a send that marks the end of a turn keeps the full default: to drop
/// one of those loses state. It is not a single second, because under load the start of the process
/// alone can take that long.
pub const RUNNING_PIPE_TIMEOUT_SECS: u64 = 2;

/// How many seconds a running pane may sit at a shell prompt before its status is declared stale.
///
/// Any message for the pane starts the count anew, so a producer that suppresses identical heartbeats
/// has to go quiet for strictly less than this.
pub const RUNNING_QUIET_MAX_SECS: u64 = 15;

/// How many bytes of its standard input a producer reads, at most. What producers are fed is well
/// below a megabyte; the cap bounds a runaway writer.
pub const MAX_STDIN_BYTES: u64 = 8 * 1024 * 1024;

/// A heartbeat gives up strictly before a send that marks the end of a turn.
pub proof fn heartbeats_give_up_first()
    ensures
        RUNNING_PIPE_TIMEOUT_SECS < DEFAULT_PIPE_TIMEOUT_SECS,
{
}

} // verus!
