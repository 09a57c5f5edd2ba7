//! The lifecycle state of a language server session.
use vstd::prelude::*;

verus! {

/// A list of possible states the language server can be in.
#[derive(Clone, Copy, Debug, PartialEq, Eq, Structural)]
pub enum StateKind {
    /// Server has not received an `initialize` request.
    Uninitialized,
    /// Server received an `initialize` request, but has not yet responded.
    Initializing,
    /// Server received and responded success to an `initialize` request.
    Initialized,
    /// Server received a `shutdown` request.
    ShutDown,
    /// Server received an `exit` notification.
    Exited,
}

impl StateKind {
    /// Whether messages to the client are sent in this state: once initialized, and still
    /// after shutdown.
    pub open spec fn spec_allows_outbound(self) -> bool {
        self == StateKind::Initialized || self == StateKind::ShutDown
    }

    /// Whether messages to the client are sent in this state.
    pub fn allows_outbound(self) -> (r: bool)
        ensures
            r == self.spec_allows_outbound(),
    {
        match self {
            StateKind::Initialized | StateKind::ShutDown => true,
            _ => false,
        }
    }
}

/// The current state of the server.
#[derive(Debug)]
pub struct State {
    kind: StateKind,
}

impl View for State {
    type V = StateKind;

    closed spec fn view(&self) -> StateKind {
        self.kind
    }
}

impl State {
    /// A new server has not been initialized.
    pub fn new() -> (r: State)
        ensures
            r@ == StateKind::Uninitialized,
    {
        State { kind: StateKind::Uninitialized }
    }

    /// Moves to the given state.
    pub fn set(&mut self, state: StateKind)
        ensures
            final(self)@ == state,
    {
        self.kind = state;
    }

    /// The current state.
    pub fn get(&self) -> (r: StateKind)
        ensures
            r == self@,
    {
        self.kind
    }
}

} // verus!
