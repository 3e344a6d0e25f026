//! Serving the process's standard streams as one connection.

use crate::transport::listener::{
    ListenerAction, ListenerEvent, ListenerState, ListenerStep, Transport,
};
use vstd::prelude::*;

verus! {

/// The transport of standard input and standard output: one connection, for
/// as long as the process lives, and no clients to accept.
#[derive(Clone, Copy, Debug, PartialEq, Eq)]
pub struct StdIoTransport;

impl Transport for StdIoTransport {
    /// The one connection is served at once.
    open spec fn first(&self) -> (ListenerState, ListenerStep) {
        (ListenerState::Serving, ListenerStep::ServeStandardStreams)
    }

    /// When the connection is over the listener stops, with an error where
    /// the connection failed.
    open spec fn after(&self, state: ListenerState, event: ListenerEvent) -> (
        ListenerState,
        ListenerStep,
    ) {
        match (state, event) {
            (ListenerState::Serving, ListenerEvent::Finished(ended_well)) => (
                ListenerState::Stopped,
                ListenerStep::Stop { failed: !ended_well },
            ),
            _ => (ListenerState::Stopped, ListenerStep::Stop { failed: true }),
        }
    }

    fn start(&self) -> (r: (ListenerState, ListenerAction))
        ensures
            (r.0, r.1@) == self.first(),
    {
        (ListenerState::Serving, ListenerAction::ServeStandardStreams)
    }

    fn step(&self, state: ListenerState, event: ListenerEvent) -> (r: (
        ListenerState,
        ListenerAction,
    ))
        ensures
            (r.0, r.1@) == self.after(state, event),
    {
        match (state, event) {
            (ListenerState::Serving, ListenerEvent::Finished(ended_well)) => (
                ListenerState::Stopped,
                ListenerAction::Stop { failed: !ended_well },
            ),
            _ => (ListenerState::Stopped, ListenerAction::Stop { failed: true }),
        }
    }
}

/// A reader and a writer taken together as one two-way stream: what is read
/// comes from the reader, what is written goes to the writer.
pub struct CombinedStream<R, W> {
    reader: R,
    writer: W,
}

impl<R, W> CombinedStream<R, W> {
    /// The side that is read from.
    pub closed spec fn reader(&self) -> R {
        self.reader
    }

    /// The side that is written to.
    pub closed spec fn writer(&self) -> W {
        self.writer
    }

    /// The stream that reads from `reader` and writes to `writer`.
    pub fn new(reader: R, writer: W) -> (r: Self)
        ensures
            r.reader() == reader,
            r.writer() == writer,
    {
        CombinedStream { reader, writer }
    }

    /// The two sides, apart again.
    pub fn into_parts(self) -> (r: (R, W))
        ensures
            r == (self.reader(), self.writer()),
    {
        (self.reader, self.writer)
    }
}

} // verus!
