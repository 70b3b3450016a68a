//! The timeout that producers and consumers keep: either a duration, whose
//! timer the caller runs, or none at all.

use vstd::prelude::*;
use std::time::Duration;

verus! {

/// Timeout future state.
#[derive(Debug)]
pub enum Timeout {
    /// Timeout with duration.
    Duration {
        /// Timeout duration.
        duration: Duration,
        /// Is the timeout future terminated.
        terminated: bool,
    },
    /// Timeout that never occurs.
    Never,
}

impl Timeout {
    /// Create new timeout with specified duration.
    pub fn new(duration: Duration) -> (r: Self)
        ensures
            r == (Timeout::Duration { duration, terminated: false }),
    {
        Timeout::Duration { duration, terminated: false }
    }

    /// Create new timeout that never occurs.
    pub fn never() -> (r: Self)
        ensures
            r is Never,
    {
        Timeout::Never
    }

    /// Reset timeout (with the duration it was created with): answers the
    /// duration to restart the timer with, if there is a timer, and the
    /// timeout counts as not terminated again, so that it can occur again.
    pub fn reset(&mut self) -> (r: Option<Duration>)
        ensures
            match *old(self) {
                Timeout::Duration { duration, .. } => {
                    &&& r == Some(duration)
                    &&& *final(self) == (Timeout::Duration { duration, terminated: false })
                },
                Timeout::Never => r is None && *final(self) == *old(self),
            },
    {
        match self {
            Timeout::Duration { duration, terminated } => {
                *terminated = false;
                Some(*duration)
            },
            Timeout::Never => None,
        }
    }

    /// A poll of the timeout, given whether its timer has elapsed (the timer
    /// is polled only for a timeout with duration): answers whether the
    /// timeout is ready.
    pub fn poll(&mut self, elapsed: bool) -> (r: bool)
        ensures
            match *old(self) {
                Timeout::Duration { duration, terminated } => {
                    &&& r == elapsed
                    &&& *final(self) == (Timeout::Duration { duration, terminated: terminated || elapsed })
                },
                Timeout::Never => !r && *final(self) == *old(self),
            },
    {
        match self {
            Timeout::Duration { terminated, .. } => {
                if elapsed {
                    *terminated = true;
                }
                elapsed
            },
            Timeout::Never => false,
        }
    }

    /// Whether the timeout has occurred: a timeout that never occurs never
    /// terminates.
    pub fn is_terminated(&self) -> (r: bool)
        ensures
            r == (match *self {
                Timeout::Duration { terminated, .. } => terminated,
                Timeout::Never => false,
            }),
    {
        match self {
            Timeout::Duration { terminated, .. } => *terminated,
            Timeout::Never => false,
        }
    }
}

} // verus!
