//! Listening on a socket in the file system.

use crate::transport::listener::{
    accept_next, accept_step, ListenerAction, ListenerEvent, ListenerState, ListenerStep,
    Transport,
};
use vstd::prelude::*;

verus! {

/// The path of a socket to listen on.
#[derive(Debug, Clone, PartialEq, Eq)]
pub struct UnixTransport {
    socket: String,
}

impl UnixTransport {
    /// The socket's path.
    pub closed spec fn path(&self) -> Seq<char> {
        self.socket@
    }

    /// The transport that listens on the socket at `socket`.
    pub fn new(socket: &str) -> (r: Self)
        ensures
            r.path() == socket@,
    {
        UnixTransport { socket: socket.to_owned() }
    }

    /// The socket's path, as it is bound and reported.
    pub fn socket(&self) -> (r: &str)
        ensures
            r@ == self.path(),
    {
        self.socket.as_str()
    }
}

impl Transport for UnixTransport {
    /// The listener starts by removing what an earlier run left at the path.
    open spec fn first(&self) -> (ListenerState, ListenerStep) {
        (ListenerState::Clearing, ListenerStep::RemoveStale(self.path()))
    }

    /// Once the path is free the socket is bound there; a file that cannot be
    /// removed is fatal. From then on the listener accepts.
    open spec fn after(&self, state: ListenerState, event: ListenerEvent) -> (
        ListenerState,
        ListenerStep,
    ) {
        match (state, event) {
            (ListenerState::Clearing, ListenerEvent::Cleared(true)) => (
                ListenerState::Binding,
                ListenerStep::BindPath(self.path()),
            ),
            _ => accept_step(state, event),
        }
    }

    fn start(&self) -> (r: (ListenerState, ListenerAction))
        ensures
            (r.0, r.1@) == self.first(),
    {
        (ListenerState::Clearing, ListenerAction::RemoveStale(self.socket.clone()))
    }

    fn step(&self, state: ListenerState, event: ListenerEvent) -> (r: (
        ListenerState,
        ListenerAction,
    ))
        ensures
            (r.0, r.1@) == self.after(state, event),
    {
        match (state, event) {
            (ListenerState::Clearing, ListenerEvent::Cleared(true)) => (
                ListenerState::Binding,
                ListenerAction::BindPath(self.socket.clone()),
            ),
            _ => accept_next(state, event),
        }
    }
}

} // verus!
