//! A listener, step by step: it binds, accepts clients one after another and
//! hands each to a connection of its own. The steps decide; whoever drives
//! them does the binding, the accepting and the spawning.

use vstd::prelude::*;

verus! {

/// Where a listener stands.
#[derive(Clone, Copy, Debug, PartialEq, Eq, Structural)]
pub enum ListenerState {
    /// Making room at the socket's path.
    Clearing,
    /// Binding.
    Binding,
    /// Bound, and waiting for clients.
    Accepting,
    /// Handing a client that was accepted to a connection of its own.
    Spawning,
    /// Serving the one connection that the standard streams make up.
    Serving,
    /// Done.
    Stopped,
}

/// What has happened at a listener since its last step.
#[derive(Clone, Copy, Debug, PartialEq, Eq, Structural)]
pub enum ListenerEvent {
    /// The socket's path is free (`true`), or a file there could not be
    /// removed.
    Cleared(bool),
    /// Binding went through (`true`) or failed.
    Bound(bool),
    /// A client was accepted (`true`), or accepting failed.
    Accepted(bool),
    /// The client that was accepted has a connection of its own now.
    Spawned,
    /// The one connection of the standard streams is over; `true` says that
    /// it ended without failing.
    Finished(bool),
}

/// What is to be done next at a listener.
#[derive(Debug, Clone, PartialEq, Eq)]
pub enum ListenerAction {
    /// Remove the file at this path, if there is one.
    RemoveStale(String),
    /// Bind the socket at this path.
    BindPath(String),
    /// Bind this address, a host and a port.
    BindAddress(String),
    /// Wait for a client.
    Accept,
    /// Hand the client just accepted to a connection of its own, which runs
    /// beside the others.
    Spawn,
    /// Serve standard input and standard output as one connection.
    ServeStandardStreams,
    /// Stop listening; `failed` says that this is an error.
    Stop { failed: bool },
}

/// What a `ListenerAction` holds.
pub enum ListenerStep {
    RemoveStale(Seq<char>),
    BindPath(Seq<char>),
    BindAddress(Seq<char>),
    Accept,
    Spawn,
    ServeStandardStreams,
    Stop { failed: bool },
}

impl View for ListenerAction {
    type V = ListenerStep;

    open spec fn view(&self) -> ListenerStep {
        match self {
            ListenerAction::RemoveStale(path) => ListenerStep::RemoveStale(path@),
            ListenerAction::BindPath(path) => ListenerStep::BindPath(path@),
            ListenerAction::BindAddress(address) => ListenerStep::BindAddress(address@),
            ListenerAction::Accept => ListenerStep::Accept,
            ListenerAction::Spawn => ListenerStep::Spawn,
            ListenerAction::ServeStandardStreams => ListenerStep::ServeStandardStreams,
            ListenerAction::Stop { failed } => ListenerStep::Stop { failed: *failed },
        }
    }
}

/// The steps of a listener once it is binding: a failed bind is fatal, an
/// accepted client is spawned and the listener accepts again, and a failed
/// accept is passed over, the listener going on to accept. Anything else stops
/// it with an error.
pub open spec fn accept_step(state: ListenerState, event: ListenerEvent) -> (
    ListenerState,
    ListenerStep,
) {
    match (state, event) {
        (ListenerState::Binding, ListenerEvent::Bound(true)) => (
            ListenerState::Accepting,
            ListenerStep::Accept,
        ),
        (ListenerState::Accepting, ListenerEvent::Accepted(true)) => (
            ListenerState::Spawning,
            ListenerStep::Spawn,
        ),
        (ListenerState::Spawning, ListenerEvent::Spawned) => (
            ListenerState::Accepting,
            ListenerStep::Accept,
        ),
        (ListenerState::Accepting, ListenerEvent::Accepted(false)) => (
            ListenerState::Accepting,
            ListenerStep::Accept,
        ),
        _ => (ListenerState::Stopped, ListenerStep::Stop { failed: true }),
    }
}

/// No accept ends a listener, whether it gave a client or failed: after a
/// failed accept the listener accepts again at once, and after a client it
/// does so as soon as the client has its connection.
pub proof fn lemma_accepting_goes_on()
    ensures
        accept_step(ListenerState::Accepting, ListenerEvent::Accepted(false)) == (
            ListenerState::Accepting,
            ListenerStep::Accept,
        ),
        accept_step(ListenerState::Accepting, ListenerEvent::Accepted(true)) == (
            ListenerState::Spawning,
            ListenerStep::Spawn,
        ),
        accept_step(ListenerState::Spawning, ListenerEvent::Spawned) == (
            ListenerState::Accepting,
            ListenerStep::Accept,
        ),
{
}

/// Takes a listener that is binding or accepting one step on.
pub fn accept_next(state: ListenerState, event: ListenerEvent) -> (r: (
    ListenerState,
    ListenerAction,
))
    ensures
        (r.0, r.1@) == accept_step(state, event),
{
    match (state, event) {
        (ListenerState::Binding, ListenerEvent::Bound(true)) => (
            ListenerState::Accepting,
            ListenerAction::Accept,
        ),
        (ListenerState::Accepting, ListenerEvent::Accepted(true)) => (
            ListenerState::Spawning,
            ListenerAction::Spawn,
        ),
        (ListenerState::Spawning, ListenerEvent::Spawned) => (
            ListenerState::Accepting,
            ListenerAction::Accept,
        ),
        (ListenerState::Accepting, ListenerEvent::Accepted(false)) => (
            ListenerState::Accepting,
            ListenerAction::Accept,
        ),
        _ => (ListenerState::Stopped, ListenerAction::Stop { failed: true }),
    }
}

/// A way for clients to reach the server.
pub trait Transport {
    /// How a listener on this transport starts.
    spec fn first(&self) -> (ListenerState, ListenerStep);

    /// How a listener on this transport goes on from `state` on `event`.
    spec fn after(&self, state: ListenerState, event: ListenerEvent) -> (
        ListenerState,
        ListenerStep,
    );

    /// Starts a listener.
    fn start(&self) -> (r: (ListenerState, ListenerAction))
        ensures
            (r.0, r.1@) == self.first(),
    ;

    /// Takes a listener one step on.
    fn step(&self, state: ListenerState, event: ListenerEvent) -> (r: (
        ListenerState,
        ListenerAction,
    ))
        ensures
            (r.0, r.1@) == self.after(state, event),
    ;
}

/// A transport together with the state of its listener.
pub struct Server<T: Transport> {
    transport: T,
    state: Option<ListenerState>,
}

impl<T: Transport> Server<T> {
    /// The transport that the server listens on.
    pub closed spec fn transport(&self) -> T {
        self.transport
    }

    /// The listener's state; none before the server was started.
    pub closed spec fn state(&self) -> Option<ListenerState> {
        self.state
    }

    /// A server on `transport` that has not started yet.
    pub fn new(transport: T) -> (r: Self)
        ensures
            r.transport() == transport,
            r.state() is None,
    {
        Server { transport, state: None }
    }

    /// Starts the listener and says what to do first.
    pub fn start(&mut self) -> (action: ListenerAction)
        ensures
            final(self).transport() == old(self).transport(),
            (final(self).state(), action@) == (
                Some(old(self).transport().first().0),
                old(self).transport().first().1,
            ),
    {
        let (state, action) = self.transport.start();
        self.state = Some(state);
        action
    }

    /// Takes the listener one step on, on `event`, and says what to do next.
    /// A server that was not started stops with an error.
    pub fn step(&mut self, event: ListenerEvent) -> (action: ListenerAction)
        ensures
            final(self).transport() == old(self).transport(),
            match old(self).state() {
                Some(state) => (final(self).state(), action@) == (
                    Some(old(self).transport().after(state, event).0),
                    old(self).transport().after(state, event).1,
                ),
                None => final(self).state() == Some(ListenerState::Stopped) && action@
                    == (ListenerStep::Stop { failed: true }),
            },
    {
        match self.state {
            Some(state) => {
                let (state, action) = self.transport.step(state, event);
                self.state = Some(state);
                action
            },
            None => {
                self.state = Some(ListenerState::Stopped);
                ListenerAction::Stop { failed: true }
            },
        }
    }
}

} // verus!
