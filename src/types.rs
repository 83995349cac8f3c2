use vstd::prelude::*;

verus! {

/// A modification time, as nanoseconds relative to the Unix epoch.
#[derive(Clone, Copy, Debug, PartialEq, Eq, Structural)]
pub struct Timestamp {
    pub nanos: i128,
}

/// The time the worker waits for control traffic before it polls again.
#[derive(Clone, Copy, Debug, PartialEq, Eq, Structural)]
pub struct PollInterval {
    pub secs: u64,
    pub nanos: u32,
}

impl PollInterval {
    /// The interval a fresh worker starts with: one second.
    pub fn default_interval() -> (r: PollInterval)
        ensures
            r == (PollInterval { secs: 1, nanos: 0 }),
    {
        PollInterval { secs: 1, nanos: 0 }
    }
}

/// An I/O failure met while reading or inspecting a file: its kind and its
/// message, as the host's I/O layer words them.
#[derive(Debug)]
pub struct IoFailure {
    pub kind: String,
    pub message: String,
}

/// The outcome of one refresh attempt: the new text, or the failure.
pub type Update = Result<String, IoFailure>;

} // verus!
