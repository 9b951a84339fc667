//! An adapter that exposes a secure-transport session engine as a
//! non-blocking, pollable duplex stream over an arbitrary transport.
//!
//! The protocol engine (handshake, record protection, close-notify) and the
//! transport (a non-blocking byte channel) are abstract collaborators,
//! described by the traits in [`engine`].  This crate supplies the glue that
//! drains the engine against the transport without ever blocking, tracks
//! half-close state, drives the handshake to completion exactly once, and
//! optionally replays speculative early data when the peer rejects it.

use vstd::prelude::*;

pub mod engine;
pub mod common;
pub mod client;

verus! {

/// Outcome classification for every operation of the adapter and of its
/// collaborators.
///
/// `WouldBlock` is transient: it signals suspension, never failure, and is
/// the only condition after which a caller retries.  `UnexpectedEof` and
/// `ProtocolViolation` are fatal.  `ConnectionAborted` reports an abrupt
/// peer reset on the transport; the adapter converts it into a graceful
/// zero-length read and never surfaces it from the read path.  Any other
/// transport error passes through unmodified as `Other` with an
/// implementation-chosen code.
#[derive(Clone, Copy, Debug, PartialEq, Eq, Structural)]
pub enum IoError {
    /// No progress is possible right now; retry once the transport is ready.
    WouldBlock,
    /// The peer closed the transport before the handshake finished.
    UnexpectedEof,
    /// The engine reported a decode or validation failure.
    ProtocolViolation,
    /// The transport reported an abrupt peer reset.
    ConnectionAborted,
    /// Any other transport error, passed through unmodified.
    Other(u64),
}

/// Result of a polling-style operation: either a value, or a suspension
/// that the caller's scheduler resolves by re-invoking the operation once
/// the transport signals readiness.
#[derive(Clone, Copy, Debug, PartialEq, Eq, Structural)]
pub enum Poll<T> {
    /// The operation completed with this outcome.
    Ready(T),
    /// No progress was possible; re-invoke later.  No progress made before
    /// the suspension is lost: re-invocation resumes from the state the
    /// suspended call left behind.
    Pending,
}

/// Half-close state of a duplex secure stream.
///
/// Once a direction is shut down it never reopens: the state only moves
/// toward [`TlsState::FullyShutdown`].  [`TlsState::EarlyData`] is a strict
/// prefix state used while speculative data may still be sent, and is never
/// re-entered once left.
#[derive(Clone, Copy, Debug, PartialEq, Eq, Structural)]
pub enum TlsState {
    /// Speculative data may still be in flight; the handshake is unconfirmed.
    EarlyData,
    /// Handshake complete, both directions open.
    Stream,
    /// The peer closed its write side; reads return empty results.
    ReadShutdown,
    /// We closed our write side; writes are refused at the protocol level.
    WriteShutdown,
    /// Both directions closed.
    FullyShutdown,
}

impl TlsState {
    /// Whether the read direction is still open.
    pub open spec fn readable_spec(self) -> bool {
        !(self is ReadShutdown || self is FullyShutdown)
    }

    /// Whether the write direction is still open.
    pub open spec fn writeable_spec(self) -> bool {
        !(self is WriteShutdown || self is FullyShutdown)
    }

    /// The state after the read direction shuts down.
    pub open spec fn after_shutdown_read(self) -> TlsState {
        if self is WriteShutdown || self is FullyShutdown {
            TlsState::FullyShutdown
        } else {
            TlsState::ReadShutdown
        }
    }

    /// The state after the write direction shuts down.
    pub open spec fn after_shutdown_write(self) -> TlsState {
        if self is ReadShutdown || self is FullyShutdown {
            TlsState::FullyShutdown
        } else {
            TlsState::WriteShutdown
        }
    }

    /// The state after one shutdown request: the write side closes if it
    /// was still open, and nothing else changes.
    pub open spec fn after_shutdown(self) -> TlsState {
        if self.writeable_spec() {
            self.after_shutdown_write()
        } else {
            self
        }
    }

    pub fn readable(&self) -> (r: bool)
        ensures
            r == self.readable_spec(),
    {
        !(matches!(self, TlsState::ReadShutdown | TlsState::FullyShutdown))
    }

    pub fn writeable(&self) -> (r: bool)
        ensures
            r == self.writeable_spec(),
    {
        !(matches!(self, TlsState::WriteShutdown | TlsState::FullyShutdown))
    }

    pub fn shutdown_read(&mut self)
        ensures
            *final(self) == old(self).after_shutdown_read(),
    {
        match self {
            TlsState::WriteShutdown | TlsState::FullyShutdown => {
                *self = TlsState::FullyShutdown;
            }
            _ => {
                *self = TlsState::ReadShutdown;
            }
        }
    }

    pub fn shutdown_write(&mut self)
        ensures
            *final(self) == old(self).after_shutdown_write(),
    {
        match self {
            TlsState::ReadShutdown | TlsState::FullyShutdown => {
                *self = TlsState::FullyShutdown;
            }
            _ => {
                *self = TlsState::WriteShutdown;
            }
        }
    }
}

/// Closed directions never reopen: shutting down either direction preserves
/// every closure already in force and closes the requested direction.
pub proof fn lemma_state_monotone(s: TlsState)
    ensures
        !s.after_shutdown_read().readable_spec(),
        !s.after_shutdown_write().writeable_spec(),
        !s.readable_spec() ==> !s.after_shutdown_write().readable_spec(),
        !s.writeable_spec() ==> !s.after_shutdown_read().writeable_spec(),
{
}

/// Shutdown is idempotent.  One request closes the write side; a second
/// request finds it already closed and changes nothing, and — because a
/// close-notify is requested of the engine only on the transition out of
/// the writable state — the second request emits no further close-notify.
/// The read side is untouched either time.
pub proof fn lemma_shutdown_idempotent(s: TlsState)
    ensures
        !s.after_shutdown().writeable_spec(),
        s.after_shutdown().after_shutdown() == s.after_shutdown(),
        s.after_shutdown().readable_spec() == s.readable_spec(),
{
}

} // verus!
