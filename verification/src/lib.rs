//! A verified core for a small interactive network relay.
//!
//! The crate has two parts: a readiness-based event multiplexer built on a
//! watch list of file descriptors ([`iopoll`]), and the duplex relay session
//! state machine that rides on top of it ([`relay`]). All platform calls
//! (polling, socket and console I/O) are performed by the embedding program;
//! the library owns the watch-list bookkeeping, the dispatch policy and the
//! session's open/closed latches, and proves them correct.

pub mod iopoll;
pub mod relay;
