//! The daemon's event loop, decided here and run by the caller: while the
//! shutdown flag is unset, wait up to [`POLL_MILLIS`] for a watcher event and
//! do what [`react`] says with it.
use vstd::prelude::*;

verus! {

/// How long one wait for a watcher event lasts, so that the shutdown flag is
/// seen within this delay.
pub const POLL_MILLIS: u64 = 100;

/// How long to let a file operation in flight finish after the loop stops.
pub const SHUTDOWN_GRACE_MILLIS: u64 = 500;

/// What one wait for the watcher gave.
#[derive(Debug, PartialEq, Eq)]
pub enum Polled {
    /// An event for `paths`; `created` tells whether it reports creations.
    Event { created: bool, paths: Vec<String> },
    /// The watcher reported an error.
    WatchFailed(String),
    /// Nothing arrived in time.
    Timeout,
    /// The watcher is gone.
    Disconnected,
}

/// What the loop does next.
#[derive(Debug, PartialEq, Eq)]
pub enum Reaction {
    /// Hand each path, in order, to the rename worker.
    Process(Vec<String>),
    /// Wait again.
    Idle,
    /// Log this watcher error and wait again.
    Report(String),
}

/// What to do with what a wait gave: creation events have their paths
/// processed; other events and timeouts are ignored; watcher failures are
/// reported and the loop goes on.
pub fn react(polled: Polled) -> (r: Reaction)
    ensures
        match polled {
            Polled::Event { created, paths } => if created {
                r == Reaction::Process(paths)
            } else {
                r == Reaction::Idle
            },
            Polled::WatchFailed(m) => r == Reaction::Report(m),
            Polled::Timeout => r == Reaction::Idle,
            Polled::Disconnected => r matches Reaction::Report(_),
        },
{
    match polled {
        Polled::Event { created, paths } => if created {
            Reaction::Process(paths)
        } else {
            Reaction::Idle
        },
        Polled::WatchFailed(m) => Reaction::Report(m),
        Polled::Timeout => Reaction::Idle,
        Polled::Disconnected => Reaction::Report(String::new()),
    }
}

} // verus!
