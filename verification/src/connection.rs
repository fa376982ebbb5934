//! One connection, as the daemon serves it and as a client makes it.

use crate::builder::BUILDER_HOST;
use crate::config::Config;
use crate::error::Error;
use vstd::prelude::*;

verus! {

/// A connection that the daemon serves, by what is to be done next.
#[derive(Debug, PartialEq, Eq)]
pub enum ProxyConnection<S> {
    /// Take note that the connection has opened.
    Open { port: u16 },
    /// Make sure that a VM runs.
    EnsureVm { port: u16 },
    /// Connect to the builder, at this host and port.
    Connect { host: &'static str, port: u16 },
    /// Copy between the two ends, both ways, until both are done.
    Proxy,
    /// Take note that the connection has closed.
    Close { result: Result<(), Error<S>> },
    /// Nothing is left to do.
    Finished { result: Result<(), Error<S>> },
}

/// The answer to a step of serving a connection.
#[derive(Debug, PartialEq, Eq)]
pub enum ProxyEvent<S> {
    Opened,
    Ensured(Result<(), Error<S>>),
    Connected(Result<(), S>),
    Proxied(Result<(), S>),
    Closed,
}

impl<S> ProxyConnection<S> {
    /// Whether the connection has been noted as opened, and not yet as closed.
    pub open spec fn is_active(self) -> bool {
        !(self is Open) && !(self is Finished)
    }

    /// Whether `event` is an answer to this step.
    pub open spec fn answered_by(self, event: ProxyEvent<S>) -> bool {
        match self {
            ProxyConnection::Open { .. } => event is Opened,
            ProxyConnection::EnsureVm { .. } => event is Ensured,
            ProxyConnection::Connect { .. } => event is Connected,
            ProxyConnection::Proxy => event is Proxied,
            ProxyConnection::Close { .. } => event is Closed,
            ProxyConnection::Finished { .. } => false,
        }
    }

    /// The step after this one, given the answer to it. An answer to some
    /// other step changes nothing.
    pub open spec fn next(self, event: ProxyEvent<S>) -> Self {
        match (self, event) {
            (ProxyConnection::Open { port }, ProxyEvent::Opened) => ProxyConnection::EnsureVm {
                port,
            },
            (ProxyConnection::EnsureVm { port }, ProxyEvent::Ensured(result)) => match result {
                Ok(_) => ProxyConnection::Connect { host: BUILDER_HOST, port },
                Err(error) => ProxyConnection::Close { result: Err(error) },
            },
            (ProxyConnection::Connect { port, .. }, ProxyEvent::Connected(outcome)) => match outcome {
                Ok(_) => ProxyConnection::Proxy,
                Err(source) => ProxyConnection::Close {
                    result: Err(Error::ConnectBuilder { port, source }),
                },
            },
            (ProxyConnection::Proxy, ProxyEvent::Proxied(outcome)) => ProxyConnection::Close {
                result: match outcome {
                    Ok(_) => Ok(()),
                    Err(source) => Err(Error::ProxyTransport { source }),
                },
            },
            (ProxyConnection::Close { result }, ProxyEvent::Closed) => ProxyConnection::Finished {
                result,
            },
            _ => self,
        }
    }

    /// The step that is reached once all of `events` have been taken, in order.
    pub open spec fn run(self, events: Seq<ProxyEvent<S>>) -> Self
        decreases events.len(),
    {
        if events.len() == 0 {
            self
        } else {
            self.run(events.drop_last()).next(events.last())
        }
    }

    pub fn advance(self, event: ProxyEvent<S>) -> (step: Self)
        ensures
            step == self.next(event),
    {
        match (self, event) {
            (ProxyConnection::Open { port }, ProxyEvent::Opened) => ProxyConnection::EnsureVm {
                port,
            },
            (ProxyConnection::EnsureVm { port }, ProxyEvent::Ensured(result)) => match result {
                Ok(_) => ProxyConnection::Connect { host: BUILDER_HOST, port },
                Err(error) => ProxyConnection::Close { result: Err(error) },
            },
            (ProxyConnection::Connect { port, .. }, ProxyEvent::Connected(outcome)) => match outcome {
                Ok(_) => ProxyConnection::Proxy,
                Err(source) => ProxyConnection::Close {
                    result: Err(Error::ConnectBuilder { port, source }),
                },
            },
            (ProxyConnection::Proxy, ProxyEvent::Proxied(outcome)) => match outcome {
                Ok(_) => ProxyConnection::Close { result: Ok(()) },
                Err(source) => ProxyConnection::Close {
                    result: Err(Error::ProxyTransport { source }),
                },
            },
            (ProxyConnection::Close { result }, ProxyEvent::Closed) => ProxyConnection::Finished {
                result,
            },
            (step, _) => step,
        }
    }
}

/// Begins to serve a connection, for a builder that answers at the configured
/// port.
pub fn handle_proxy_connection<S>(config: &Config) -> (step: ProxyConnection<S>)
    ensures
        step == (ProxyConnection::<S>::Open { port: config.ssh_port }),
{
    ProxyConnection::Open { port: config.ssh_port }
}

/// How often a connection was noted as opened in the course of `events`.
pub open spec fn times_opened<S>(port: u16, events: Seq<ProxyEvent<S>>) -> nat
    decreases events.len(),
{
    if events.len() == 0 {
        0
    } else {
        let earlier = times_opened(port, events.drop_last());
        if (ProxyConnection::<S>::Open { port }).run(events.drop_last()) is Open
            && events.last() is Opened {
            earlier + 1
        } else {
            earlier
        }
    }
}

/// How often a connection was noted as closed in the course of `events`.
pub open spec fn times_closed<S>(port: u16, events: Seq<ProxyEvent<S>>) -> nat
    decreases events.len(),
{
    if events.len() == 0 {
        0
    } else {
        let earlier = times_closed(port, events.drop_last());
        if (ProxyConnection::<S>::Open { port }).run(events.drop_last()) is Close
            && events.last() is Closed {
            earlier + 1
        } else {
            earlier
        }
    }
}

/// However a connection goes, it is noted as opened once, before anything else
/// is done for it, and as closed once, when all else has been done.
pub proof fn each_connection_opens_and_closes_once<S>(port: u16, events: Seq<ProxyEvent<S>>)
    ensures
        ({
            let step = (ProxyConnection::<S>::Open { port }).run(events);
            &&& times_opened(port, events) == if step is Open {
                0nat
            } else {
                1nat
            }
            &&& times_closed(port, events) == if step is Finished {
                1nat
            } else {
                0nat
            }
        }),
    decreases events.len(),
{
    if events.len() > 0 {
        each_connection_opens_and_closes_once(port, events.drop_last());
    }
}

/// A connection comes to the first thing that goes wrong: with the VM, with
/// reaching the builder, or while copying. Where nothing does, it succeeds.
pub proof fn connection_comes_to_first_failure<S>(
    port: u16,
    ensured: Result<(), Error<S>>,
    connected: Result<(), S>,
    proxied: Result<(), S>,
)
    ensures
        ({
            let opened = (ProxyConnection::<S>::Open { port }).next(ProxyEvent::Opened);
            let end = opened.next(ProxyEvent::Ensured(ensured)).next(
                ProxyEvent::Connected(connected),
            ).next(ProxyEvent::Proxied(proxied)).next(ProxyEvent::Closed);
            end == (ProxyConnection::Finished {
                result: match (ensured, connected, proxied) {
                    (Err(error), _, _) => Err(error),
                    (_, Err(source), _) => Err(Error::ConnectBuilder { port, source }),
                    (_, _, Err(source)) => Err(Error::ProxyTransport { source }),
                    _ => Ok(()),
                },
            })
        }),
{
}

/// A client's connection to the daemon, by what is to be done next.
#[derive(Debug, PartialEq, Eq)]
pub enum ClientConnection<S> {
    /// Connect to the daemon's socket.
    Connect { socket: Vec<u8> },
    /// Copy between the standard streams and the daemon, both ways, until both
    /// are done.
    Proxy,
    /// Nothing is left to do.
    Finished { result: Result<(), Error<S>> },
}

/// The answer to a step of a client's connection.
#[derive(Debug, PartialEq, Eq)]
pub enum ClientEvent<S> {
    Connected(Result<(), S>),
    Proxied(Result<(), S>),
}

impl<S> ClientConnection<S> {
    /// The step after this one, given the answer to it. An answer to some
    /// other step changes nothing.
    pub open spec fn next(self, event: ClientEvent<S>) -> Self {
        match (self, event) {
            (ClientConnection::Connect { socket }, ClientEvent::Connected(outcome)) => {
                match outcome {
                    Ok(_) => ClientConnection::Proxy,
                    Err(source) => ClientConnection::Finished {
                        result: Err(Error::ConnectDaemon { path: socket, source }),
                    },
                }
            },
            (ClientConnection::Proxy, ClientEvent::Proxied(outcome)) => {
                ClientConnection::Finished {
                    result: match outcome {
                        Ok(_) => Ok(()),
                        Err(source) => Err(Error::ProxyTransport { source }),
                    },
                }
            },
            _ => self,
        }
    }

    pub fn advance(self, event: ClientEvent<S>) -> (step: Self)
        ensures
            step == self.next(event),
    {
        match (self, event) {
            (ClientConnection::Connect { socket }, ClientEvent::Connected(outcome)) => {
                match outcome {
                    Ok(_) => ClientConnection::Proxy,
                    Err(source) => ClientConnection::Finished {
                        result: Err(Error::ConnectDaemon { path: socket, source }),
                    },
                }
            },
            (ClientConnection::Proxy, ClientEvent::Proxied(outcome)) => match outcome {
                Ok(_) => ClientConnection::Finished { result: Ok(()) },
                Err(source) => ClientConnection::Finished {
                    result: Err(Error::ProxyTransport { source }),
                },
            },
            (step, _) => step,
        }
    }
}

/// Begins to connect to the daemon that listens at `socket`.
pub fn run_connect<S>(socket: Vec<u8>) -> (step: ClientConnection<S>)
    ensures
        step == (ClientConnection::<S>::Connect { socket }),
{
    ClientConnection::Connect { socket }
}

/// The builder is reached at the loopback address and the port that serving the
/// connection began with, and only once a VM runs.
pub proof fn builder_is_reached_locally<S>(port: u16, events: Seq<ProxyEvent<S>>)
    ensures
        (ProxyConnection::<S>::Open { port }).run(events) matches ProxyConnection::Connect {
            host,
            port: reached,
        } ==> host@ == "127.0.0.1"@ && reached == port,
        match (ProxyConnection::<S>::Open { port }).run(events) {
            ProxyConnection::Open { port: kept } => kept == port,
            ProxyConnection::EnsureVm { port: kept } => kept == port,
            _ => true,
        },
    decreases events.len(),
{
    if events.len() > 0 {
        builder_is_reached_locally(port, events.drop_last());
    }
}

/// Serving a connection goes through its steps in order, and moves on with every
/// answer to its step and with nothing else: it is noted, a VM is made sure of,
/// the builder is connected, the two are joined, and the closing is noted. After
/// a failure the closing is noted at once.
pub proof fn connection_goes_step_by_step<S>(
    port: u16,
    events: Seq<ProxyEvent<S>>,
    event: ProxyEvent<S>,
)
    ensures
        ({
            let step = (ProxyConnection::<S>::Open { port }).run(events);
            let after = step.next(event);
            &&& after != step <==> match event {
                ProxyEvent::Opened => step is Open,
                ProxyEvent::Ensured(_) => step is EnsureVm,
                ProxyEvent::Connected(_) => step is Connect,
                ProxyEvent::Proxied(_) => step is Proxy,
                ProxyEvent::Closed => step is Close,
            }
            &&& after != step ==> match event {
                ProxyEvent::Opened => after is EnsureVm,
                ProxyEvent::Ensured(result) => if result is Ok {
                    after is Connect
                } else {
                    after is Close
                },
                ProxyEvent::Connected(result) => if result is Ok {
                    after is Proxy
                } else {
                    after is Close
                },
                ProxyEvent::Proxied(_) => after is Close,
                ProxyEvent::Closed => after is Finished,
            }
        }),
{
}

/// A client's connection fails if the daemon cannot be reached, which the error
/// says with the socket's path, or if copying fails. Else it succeeds. Nothing is
/// copied before the daemon is reached.
pub proof fn client_comes_to_first_failure<S>(
    socket: Vec<u8>,
    connected: Result<(), S>,
    proxied: Result<(), S>,
)
    ensures
        ({
            let start = ClientConnection::<S>::Connect { socket };
            let reached = start.next(ClientEvent::Connected(connected));
            let end = reached.next(ClientEvent::Proxied(proxied));
            &&& start.next(ClientEvent::Proxied(proxied)) == start
            &&& connected is Ok <==> reached is Proxy
            &&& end matches ClientConnection::Finished { result }
            &&& connected is Ok && proxied is Ok <==> result is Ok
            &&& connected matches Err(source) ==> {
                &&& result == Err::<(), Error<S>>(Error::ConnectDaemon { path: socket, source })
                &&& end == reached
            }
            &&& connected is Ok ==> (proxied matches Err(source) ==> result == Err::<(), Error<S>>(
                Error::ProxyTransport { source },
            ))
            &&& reached.next(ClientEvent::Connected(connected)) == reached
            &&& end.next(ClientEvent::Proxied(proxied)) == end
        }),
{
}

} // verus!
