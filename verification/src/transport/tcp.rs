//! Listening on a TCP address.

use crate::text::{decimal_text, push_decimal_text};
use crate::transport::listener::{
    accept_next, accept_step, ListenerAction, ListenerEvent, ListenerState, ListenerStep,
    Transport,
};
use vstd::prelude::*;
use vstd::string::StringExecFns;

verus! {

/// A host and a port to listen on.
#[derive(Debug, Clone, PartialEq, Eq)]
pub struct TcpTransport {
    host: String,
    port: u16,
}

impl TcpTransport {
    /// The host.
    pub closed spec fn host(&self) -> Seq<char> {
        self.host@
    }

    /// The port.
    pub closed spec fn port(&self) -> u16 {
        self.port
    }

    /// The address in one piece: the host, a colon, and the port in decimal.
    pub open spec fn location(&self) -> Seq<char> {
        self.host() + seq![':'] + decimal_text(self.port() as nat)
    }

    /// The transport that listens on `host` and `port`.
    pub fn new(host: &str, port: u16) -> (r: Self)
        ensures
            r.host() == host@,
            r.port() == port,
    {
        TcpTransport { host: host.to_owned(), port }
    }

    /// The address in one piece, as it is bound and reported.
    pub fn address(&self) -> (r: String)
        ensures
            r@ == self.location(),
    {
        let mut r = String::from_str(self.host.as_str());
        proof {
            reveal_strlit(":");
            assert(":"@ =~= seq![':']);
        }
        r.append(":");
        push_decimal_text(&mut r, self.port as u64);
        r
    }
}

impl Transport for TcpTransport {
    /// The listener starts by binding the address.
    open spec fn first(&self) -> (ListenerState, ListenerStep) {
        (ListenerState::Binding, ListenerStep::BindAddress(self.location()))
    }

    open spec fn after(&self, state: ListenerState, event: ListenerEvent) -> (
        ListenerState,
        ListenerStep,
    ) {
        accept_step(state, event)
    }

    fn start(&self) -> (r: (ListenerState, ListenerAction))
        ensures
            (r.0, r.1@) == self.first(),
    {
        (ListenerState::Binding, ListenerAction::BindAddress(self.address()))
    }

    fn step(&self, state: ListenerState, event: ListenerEvent) -> (r: (
        ListenerState,
        ListenerAction,
    ))
        ensures
            (r.0, r.1@) == self.after(state, event),
    {
        accept_next(state, event)
    }
}

} // verus!
