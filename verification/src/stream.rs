use vstd::prelude::*;

use crate::payload::fixed_payload;
use crate::payload::payload_bytes;

verus! {

/// An IPv4 peer: the four address octets (most significant first) and a port.
#[derive(Clone, Copy, PartialEq, Eq, Structural, Debug)]
pub struct Endpoint {
    pub o0: u8,
    pub o1: u8,
    pub o2: u8,
    pub o3: u8,
    pub port: u16,
}

/// One operation performed on a UDP stack, as recorded in its history.
pub enum NetEvent {
    /// A socket was requested; `ok` says whether one was handed out.
    Socket { ok: bool },
    /// A socket was connected to `remote`.
    Connect { remote: Endpoint, ok: bool },
    /// The bytes `data` were offered to the stack as one datagram.
    Send { data: Seq<u8>, ok: bool },
    /// A socket was closed.
    Close { ok: bool },
}

/// A client-side UDP stack, to be implemented by the platform that runs the
/// streamer. A stack keeps a ghost history of the operations performed on it,
/// oldest first; each method appends exactly one event to it.
pub trait UdpStack {
    type Socket;

    type Error;

    /// The operations performed on this stack so far, oldest first. An
    /// implementation outside the verifier's reach may leave the default
    /// body; the method contracts below are then taken on trust for it.
    open spec fn history(&self) -> Seq<NetEvent> {
        Seq::empty()
    }

    /// Allocate a socket for further use.
    fn socket(&mut self) -> (r: Result<Self::Socket, Self::Error>)
        ensures
            final(self).history() == old(self).history().push(
                NetEvent::Socket { ok: r is Ok },
            ),
    ;

    /// Connect a socket to the peer `remote`.
    fn connect(&mut self, socket: &mut Self::Socket, remote: Endpoint) -> (r: Result<
        (),
        Self::Error,
    >)
        ensures
            final(self).history() == old(self).history().push(
                NetEvent::Connect { remote, ok: r is Ok },
            ),
    ;

    /// Send the whole of `buffer` as one datagram to the connected peer,
    /// blocking until the stack accepts or refuses it.
    fn send(&mut self, socket: &mut Self::Socket, buffer: &[u8]) -> (r: Result<(), Self::Error>)
        ensures
            final(self).history() == old(self).history().push(
                NetEvent::Send { data: buffer@, ok: r is Ok },
            ),
    ;

    /// Close a socket.
    fn close(&mut self, socket: Self::Socket) -> (r: Result<(), Self::Error>)
        ensures
            final(self).history() == old(self).history().push(
                NetEvent::Close { ok: r is Ok },
            ),
    ;
}

/// How one streaming run ended. `SocketFailed` is not an error to the caller:
/// the run is reported and given up. A failed send is fatal to the caller.
pub enum StreamOutcome<E> {
    /// No socket could be had; nothing further was attempted.
    SocketFailed,
    /// The connect failed; the stack's error is handed back.
    ConnectFailed(E),
    /// The send failed; the stack's error is handed back.
    SendFailed(E),
    /// The payload went out but the close failed; the stack's error is handed back.
    CloseFailed(E),
    /// The payload went out and the socket was closed.
    Sent,
}

/// The operations that one streaming run with outcome `r` performs on the
/// stack, in order: it stops at the first failure, and the one datagram it
/// ever offers is the fixed payload, addressed to `remote`.
pub open spec fn streamer_trace<E>(remote: Endpoint, r: StreamOutcome<E>) -> Seq<NetEvent> {
    match r {
        StreamOutcome::SocketFailed => seq![NetEvent::Socket { ok: false }],
        StreamOutcome::ConnectFailed(_) => seq![
            NetEvent::Socket { ok: true },
            NetEvent::Connect { remote, ok: false },
        ],
        StreamOutcome::SendFailed(_) => seq![
            NetEvent::Socket { ok: true },
            NetEvent::Connect { remote, ok: true },
            NetEvent::Send { data: payload_bytes(), ok: false },
        ],
        StreamOutcome::CloseFailed(_) => seq![
            NetEvent::Socket { ok: true },
            NetEvent::Connect { remote, ok: true },
            NetEvent::Send { data: payload_bytes(), ok: true },
            NetEvent::Close { ok: false },
        ],
        StreamOutcome::Sent => seq![
            NetEvent::Socket { ok: true },
            NetEvent::Connect { remote, ok: true },
            NetEvent::Send { data: payload_bytes(), ok: true },
            NetEvent::Close { ok: true },
        ],
    }
}

/// Streams the fixed payload to `remote` over `stack`: opens a socket,
/// connects it, sends the fourteen-byte message as one datagram, and closes
/// the socket. The outcome says how far the run got, and the stack's history
/// grows by exactly the operations of that run.
pub fn udp_streamer<T: UdpStack>(stack: &mut T, remote: Endpoint) -> (r: StreamOutcome<T::Error>)
    ensures
        final(stack).history() == old(stack).history() + streamer_trace(remote, r),
{
    let sock = stack.socket();
    match sock {
        Err(_) => {
            proof {
                assert(stack.history() =~= old(stack).history() + streamer_trace::<T::Error>(
                    remote,
                    StreamOutcome::SocketFailed,
                ));
            }
            StreamOutcome::SocketFailed
        },
        Ok(mut s) => {
            match stack.connect(&mut s, remote) {
                Err(e) => {
                    proof {
                        assert(stack.history() =~= old(stack).history() + streamer_trace(
                            remote,
                            StreamOutcome::ConnectFailed(e),
                        ));
                    }
                    StreamOutcome::ConnectFailed(e)
                },
                Ok(_) => {
                    let data = fixed_payload();
                    match stack.send(&mut s, data.as_slice()) {
                        Err(e) => {
                            proof {
                                assert(stack.history() =~= old(stack).history() + streamer_trace(
                                    remote,
                                    StreamOutcome::SendFailed(e),
                                ));
                            }
                            StreamOutcome::SendFailed(e)
                        },
                        Ok(_) => {
                            match stack.close(s) {
                                Err(e) => {
                                    proof {
                                        assert(stack.history() =~= old(stack).history()
                                            + streamer_trace(
                                            remote,
                                            StreamOutcome::CloseFailed(e),
                                        ));
                                    }
                                    StreamOutcome::CloseFailed(e)
                                },
                                Ok(_) => {
                                    proof {
                                        assert(stack.history() =~= old(stack).history()
                                            + streamer_trace::<T::Error>(
                                            remote,
                                            StreamOutcome::Sent,
                                        ));
                                    }
                                    StreamOutcome::Sent
                                },
                            }
                        },
                    }
                },
            }
        },
    }
}

} // verus!
