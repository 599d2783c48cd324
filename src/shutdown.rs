//! The lifecycle of a serving process: it runs until a termination signal
//! arrives, then drains. Draining lets requests in flight finish, refuses new
//! connections, and never turns back into running.
use vstd::prelude::*;

verus! {

/// A termination signal from the operating environment.
#[derive(Debug, Clone, Copy, PartialEq, Eq, Structural)]
pub enum Signal {
    /// An interrupt (Ctrl+C, `SIGINT`).
    Interrupt,
    /// A request to terminate (`SIGTERM`), where the platform has one.
    Terminate,
}

/// The state of a serving process.
#[derive(Debug, Clone, Copy, PartialEq, Eq, Structural)]
pub enum Lifecycle {
    /// Accepting connections and serving requests.
    Running,
    /// Accepting no new connection; requests in flight are finishing.
    Draining,
}

impl Lifecycle {
    /// The state in which a process starts.
    pub fn start() -> (r: Lifecycle)
        ensures
            r == Lifecycle::Running,
    {
        Lifecycle::Running
    }

    /// The state after a termination signal: draining, from either state.
    pub fn on_signal(self, signal: Signal) -> (r: Lifecycle)
        ensures
            r == Lifecycle::Draining,
    {
        match signal {
            Signal::Interrupt => Lifecycle::Draining,
            Signal::Terminate => Lifecycle::Draining,
        }
    }

    /// Whether new connections are accepted: only while running.
    pub fn accepts_connections(&self) -> (r: bool)
        ensures
            r == (*self == Lifecycle::Running),
    {
        match self {
            Lifecycle::Running => true,
            Lifecycle::Draining => false,
        }
    }
}

} // verus!
