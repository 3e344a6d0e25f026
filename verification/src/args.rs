//! Which transport the process serves on, and what each one needs.

use vstd::prelude::*;

verus! {

/// The transports by name.
#[derive(Clone, Copy, Debug, PartialEq, Eq, Structural)]
pub enum Transport {
    Unix,
    Tcp,
    Stdio,
}

impl Transport {
    /// The name by which the transport is chosen.
    pub open spec fn label(self) -> Seq<char> {
        match self {
            Transport::Unix => "unix"@,
            Transport::Tcp => "tcp"@,
            Transport::Stdio => "stdio"@,
        }
    }

    /// The name by which the transport is chosen.
    pub fn name(&self) -> (r: &'static str)
        ensures
            r@ == self.label(),
    {
        match self {
            Transport::Unix => "unix",
            Transport::Tcp => "tcp",
            Transport::Stdio => "stdio",
        }
    }
}

/// The arguments as they were given, before anything is known of how they fit
/// together.
#[derive(Debug, Clone, PartialEq, Eq)]
pub struct Args {
    /// The transport; `stdio` where none was named.
    pub transport: Transport,
    /// The host to listen on, for `tcp`.
    pub host: Option<String>,
    /// The port to listen on, for `tcp`.
    pub port: Option<u16>,
    /// The path of the socket, for `unix`.
    pub socket: Option<String>,
}

/// The argument that the chosen transport needs and that was not given.
#[derive(Clone, Copy, Debug, PartialEq, Eq, Structural)]
pub enum MissingArgument {
    Socket,
    Host,
    Port,
}

impl MissingArgument {
    /// The complaint in words.
    pub open spec fn text(self) -> Seq<char> {
        match self {
            MissingArgument::Socket =>
                "The argument '--socket <PATH>' is required when transport is 'unix'"@,
            MissingArgument::Host =>
                "The argument --host <HOST> is required when transport is 'tcp'"@,
            MissingArgument::Port =>
                "The argument --port <PORT> is required when transport is 'tcp'"@,
        }
    }

    /// The complaint in words.
    pub fn message(&self) -> (r: &'static str)
        ensures
            r@ == self.text(),
    {
        match self {
            MissingArgument::Socket =>
                "The argument '--socket <PATH>' is required when transport is 'unix'",
            MissingArgument::Host => "The argument --host <HOST> is required when transport is 'tcp'",
            MissingArgument::Port => "The argument --port <PORT> is required when transport is 'tcp'",
        }
    }
}

/// A transport with all that it needs.
#[derive(Debug, Clone, PartialEq, Eq)]
pub enum TransportType {
    Unix { socket_path: String },
    Tcp { host: String, port: u16 },
    Stdio,
}

/// What a `TransportType` holds.
pub enum Endpoint {
    Unix { socket_path: Seq<char> },
    Tcp { host: Seq<char>, port: u16 },
    Stdio,
}

impl View for TransportType {
    type V = Endpoint;

    open spec fn view(&self) -> Endpoint {
        match self {
            TransportType::Unix { socket_path } => Endpoint::Unix { socket_path: socket_path@ },
            TransportType::Tcp { host, port } => Endpoint::Tcp { host: host@, port: *port },
            TransportType::Stdio => Endpoint::Stdio,
        }
    }
}

/// Arguments that fit together.
#[derive(Debug, Clone, PartialEq, Eq)]
pub struct ValidatedArgs {
    pub transport: TransportType,
}

impl Args {
    /// What the arguments lack for the transport they name: the socket's path
    /// for `unix`; the host, or else the port, for `tcp`; nothing for `stdio`.
    pub open spec fn lacks(self) -> Option<MissingArgument> {
        match self.transport {
            Transport::Unix => if self.socket is None {
                Some(MissingArgument::Socket)
            } else {
                None
            },
            Transport::Tcp => if self.host is None {
                Some(MissingArgument::Host)
            } else if self.port is None {
                Some(MissingArgument::Port)
            } else {
                None
            },
            Transport::Stdio => None,
        }
    }

    /// The transport that the arguments name, with what it needs; arguments
    /// that it does not need count for nothing.
    pub open spec fn endpoint(self) -> Endpoint {
        match self.transport {
            Transport::Unix => Endpoint::Unix { socket_path: self.socket->0@ },
            Transport::Tcp => Endpoint::Tcp { host: self.host->0@, port: self.port->0 },
            Transport::Stdio => Endpoint::Stdio,
        }
    }

    /// Checks that the arguments hold what the transport needs.
    pub fn validate(&self) -> (r: Result<(), MissingArgument>)
        ensures
            match r {
                Ok(_) => self.lacks() is None,
                Err(e) => self.lacks() == Some(e),
            },
    {
        match self.transport {
            Transport::Unix => {
                if self.socket.is_none() {
                    return Err(MissingArgument::Socket);
                }
            },
            Transport::Tcp => {
                if self.host.is_none() {
                    return Err(MissingArgument::Host);
                }
                if self.port.is_none() {
                    return Err(MissingArgument::Port);
                }
            },
            Transport::Stdio => {},
        }
        Ok(())
    }

    /// Validates the arguments and makes of them the transport to serve on.
    pub fn into_validated(self) -> (r: Result<ValidatedArgs, MissingArgument>)
        ensures
            match r {
                Ok(args) => self.lacks() is None && args.transport@ == self.endpoint(),
                Err(e) => self.lacks() == Some(e),
            },
    {
        match self.validate() {
            Err(e) => Err(e),
            Ok(_) => {
                let transport = match self.transport {
                    Transport::Unix => TransportType::Unix { socket_path: self.socket.unwrap() },
                    Transport::Tcp => TransportType::Tcp {
                        host: self.host.unwrap(),
                        port: self.port.unwrap(),
                    },
                    Transport::Stdio => TransportType::Stdio,
                };
                Ok(ValidatedArgs { transport })
            },
        }
    }
}

} // verus!
