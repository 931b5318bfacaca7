//! Bounded sends for a status broadcast over `zellij pipe`.
//!
//! `zellij pipe` is a backpressure channel: the client process is held until every loaded plugin
//! instance has consumed the message, and an instance that is wedged holds it forever. Each blocked
//! client pins file descriptors in the Zellij server, so an unbounded send can bring a whole session
//! down. The deadline cannot live in the producer alone, since a producer that is killed mid-send
//! never runs its own kill-on-deadline. The argument vector that this crate builds therefore makes
//! the spawned subtree limit itself.
//!
//! - `limits`: the deadlines and caps that producers and consumers share;
//! - `decimal`: whole seconds in decimal notation;
//! - `argv`: the argument vector of one self-limiting send;
//! - `host_path`: the operations on paths of the host that the search below needs;
//! - `candidates`: where a shell may stand on this host, in the order of preference;
//! - `shell`: the interpreter that runs the send;
//! - `search`: the search for that interpreter.
pub mod argv;
pub mod candidates;
pub mod decimal;
pub mod host_path;
pub mod limits;
pub mod search;
pub mod shell;
