//! Duplex relay session: the policy for shuttling bytes between the local
//! console and one remote network endpoint, and for asymmetric shutdown.
//!
//! The session is a pure state machine. The embedding program performs the
//! actual reads, writes and sends, and hands their results in as plain
//! values; every decision — what to read, what to forward, when to latch a
//! side closed, when to request loop shutdown — is made and proved here.

use vstd::prelude::*;

use crate::iopoll::{spec_unregister, EventLoop, EventSet, Token};

verus! {

/// The most bytes moved per readiness notification, on either side.
pub const CHUNK_SIZE: usize = 1024;

/// The two kinds of network endpoint a session can relay to. Chosen once at
/// session construction; never changes.
#[derive(Debug, Eq, PartialEq, Clone, Copy, Structural)]
pub enum EndpointKind {
    /// Connection-oriented, ordered, supports half-close of the write
    /// direction; a zero-length read means end-of-stream.
    Stream,
    /// Connectionless, bound to one fixed peer; no half-close and no
    /// end-of-stream signal exist.
    Datagram,
}

/// What the embedding program must do for one ready-for-I/O notification.
#[derive(Debug, Eq, PartialEq, Clone, Copy, Structural)]
pub enum IoAction {
    /// Nothing: the readiness is not readable, or the console side is
    /// already closed (a stray notification after unregistration).
    Idle,
    /// Read up to [`CHUNK_SIZE`] bytes from console input.
    ConsoleRead,
    /// Read or receive up to [`CHUNK_SIZE`] bytes from the network endpoint.
    NetworkRead,
}

/// The relay session: which halves are still open, and the endpoint kind.
/// `stdin_open` and `network_open` are one-way latches: each starts true and
/// becomes false exactly once, on the zero-length read of its side.
pub struct NetcatClientEventHandler {
    pub stdin_open: bool,
    pub network_open: bool,
    pub endpoint: EndpointKind,
}

impl NetcatClientEventHandler {
    /// A fresh session: both halves open.
    pub fn new(endpoint: EndpointKind) -> (r: NetcatClientEventHandler)
        ensures
            r.stdin_open,
            r.network_open,
            r.endpoint == endpoint,
    {
        NetcatClientEventHandler { stdin_open: true, network_open: true, endpoint }
    }

    /// The I/O a ready-for-I/O notification calls for: only the readable
    /// flag is acted on, and `Token(0)` denotes the console.
    pub open spec fn spec_io_action(self, token: Token, eventset: EventSet) -> IoAction {
        if !eventset.spec_readable() {
            IoAction::Idle
        } else if token == Token(0) {
            if self.stdin_open {
                IoAction::ConsoleRead
            } else {
                IoAction::Idle
            }
        } else {
            IoAction::NetworkRead
        }
    }

    /// Classify a ready-for-I/O notification.
    pub fn ready_for_io_action(&self, token: Token, eventset: EventSet) -> (a: IoAction)
        ensures
            a == self.spec_io_action(token, eventset),
    {
        if !eventset.is_readable() {
            IoAction::Idle
        } else if token == Token(0) {
            if self.stdin_open {
                IoAction::ConsoleRead
            } else {
                IoAction::Idle
            }
        } else {
            IoAction::NetworkRead
        }
    }

    /// Act on the result of a console read: `None` is a read failure and
    /// requests loop shutdown; otherwise the bytes read come back verbatim
    /// as the data to forward to the network endpoint (zero bytes included —
    /// the end-of-stream bookkeeping follows in
    /// [`Self::on_console_forwarded`], after the forward).
    pub fn on_console_read(&self, event_loop: &mut EventLoop, outcome: Option<Vec<u8>>) -> (fwd:
        Option<Vec<u8>>)
        requires
            self.stdin_open,
        ensures
            match outcome {
                Some(data) => fwd == Some(data) && *final(event_loop) == *old(event_loop),
                None => fwd is None && !final(event_loop).active && final(event_loop).pollfds@
                    == old(event_loop).pollfds@ && final(event_loop).timeout == old(
                    event_loop,
                ).timeout,
            },
    {
        match outcome {
            Some(data) => Some(data),
            None => {
                event_loop.shutdown();
                None
            }
        }
    }

    /// Bookkeeping after `n` console bytes were forwarded. Zero bytes is
    /// console end-of-stream: the console latch closes, console input is
    /// unregistered, and — only for a stream endpoint — the returned flag
    /// asks for exactly one half-close of the network write direction.
    /// A datagram endpoint has no such signal and nothing further is done.
    /// The loop stays as it was: console end-of-stream alone leaves it
    /// running to drain remaining inbound network data.
    pub fn on_console_forwarded(&mut self, event_loop: &mut EventLoop, n: usize) -> (half_close:
        bool)
        requires
            old(self).stdin_open,
        ensures
            final(self).network_open == old(self).network_open,
            final(self).endpoint == old(self).endpoint,
            final(event_loop).active == old(event_loop).active,
            final(event_loop).timeout == old(event_loop).timeout,
            n > 0 ==> *final(self) == *old(self) && final(event_loop).pollfds@ == old(
                event_loop,
            ).pollfds@ && !half_close,
            n == 0 ==> !final(self).stdin_open && final(event_loop).pollfds@ == spec_unregister(
                old(event_loop).pollfds@,
                0,
            ) && half_close == (old(self).endpoint == EndpointKind::Stream),
    {
        if n == 0 {
            self.stdin_open = false;
            event_loop.unregister_stdin();
            match self.endpoint {
                EndpointKind::Stream => true,
                EndpointKind::Datagram => false,
            }
        } else {
            false
        }
    }

    /// Act on the result of a datagram send: datagrams are not retried or
    /// fragmented, so a failed send, or one that accepted a byte count other
    /// than the chunk handed to it, requests orderly loop shutdown — a
    /// terminal condition for the session, not an error abort.
    pub fn on_datagram_send_result(
        &self,
        event_loop: &mut EventLoop,
        expected: usize,
        sent: Option<usize>,
    )
        requires
            self.endpoint == EndpointKind::Datagram,
        ensures
            final(event_loop).pollfds@ == old(event_loop).pollfds@,
            final(event_loop).timeout == old(event_loop).timeout,
            final(event_loop).active == (old(event_loop).active && sent == Some(expected)),
    {
        match sent {
            Some(n) => {
                if n != expected {
                    event_loop.shutdown();
                }
            }
            None => {
                event_loop.shutdown();
            }
        }
    }

    /// Act on the result of a network read or receive: a failure is
    /// swallowed at this layer (no state change, nothing written — the loop
    /// shuts down only on the explicit zero-length case); otherwise the
    /// bytes come back verbatim as the data to write to console output.
    /// Zero bytes latches the network side closed and requests loop
    /// shutdown. The console latch never moves here, whatever the outcome:
    /// inbound data keeps flowing to the console until the network side
    /// itself signals end-of-stream.
    pub fn on_network_read(&mut self, event_loop: &mut EventLoop, outcome: Option<Vec<u8>>) -> (out:
        Option<Vec<u8>>)
        ensures
            final(self).stdin_open == old(self).stdin_open,
            final(self).endpoint == old(self).endpoint,
            final(event_loop).pollfds@ == old(event_loop).pollfds@,
            final(event_loop).timeout == old(event_loop).timeout,
            match outcome {
                Some(data) => out == Some(data) && (data@.len() > 0 ==> *final(self) == *old(self)
                    && final(event_loop).active == old(event_loop).active) && (data@.len() == 0
                    ==> !final(self).network_open && !final(event_loop).active),
                None => out is None && *final(self) == *old(self) && final(event_loop).active == old(
                    event_loop,
                ).active,
            },
    {
        match outcome {
            Some(data) => {
                if data.len() == 0 {
                    self.network_open = false;
                    event_loop.shutdown();
                }
                Some(data)
            }
            None => None,
        }
    }

    /// A hangup on the console requests loop shutdown. A hangup on the
    /// network token is observed but does not by itself force shutdown: the
    /// zero-length read expected on that same cycle does.
    pub fn hangup(&mut self, event_loop: &mut EventLoop, connection_id: Token)
        ensures
            *final(self) == *old(self),
            final(event_loop).pollfds@ == old(event_loop).pollfds@,
            final(event_loop).timeout == old(event_loop).timeout,
            final(event_loop).active == (old(event_loop).active && connection_id != Token(0)),
    {
        if connection_id == Token(0) {
            event_loop.shutdown();
        }
    }

    /// An error condition is observed; no state transition is forced.
    pub fn error(&mut self, event_loop: &mut EventLoop, _stream_id: Token)
        ensures
            *final(self) == *old(self),
            *final(event_loop) == *old(event_loop),
    {
    }

    /// The idle timeout is a hard cutoff: it unconditionally requests loop
    /// shutdown.
    pub fn timeout(&mut self, event_loop: &mut EventLoop)
        ensures
            *final(self) == *old(self),
            !final(event_loop).active,
            final(event_loop).pollfds@ == old(event_loop).pollfds@,
            final(event_loop).timeout == old(event_loop).timeout,
    {
        event_loop.shutdown();
    }
}

} // verus!
