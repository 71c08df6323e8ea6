//! Core logic of a bridge between native code and a managed virtual-machine
//! runtime's Bluetooth LE scanning callbacks.
//!
//! The bridge lets the managed runtime hold, invoke, and eventually release a
//! native callback object, and turns the push-based callbacks into a
//! pull-based, bounded, cancellable event stream.  This crate verifies the
//! decisions that make that safe:
//!
//! - [`attach`]: when a thread must be attached to the virtual machine before
//!   calling in, who owns the attachment, and when it is detached.
//! - [`handle`]: the reference-counted opaque handle that carries a native
//!   callback object through the managed runtime, and its
//!   borrow/invoke/release/finalize discipline.
//! - [`provision`]: one-time loading of the proxy class and the
//!   version-gated registration of its native entry points.
//! - [`decode`]: turning the raw fields of a scan callback into a validated
//!   advertising event, dropping malformed events.
//! - [`channel`]: the bounded event channel between callback threads and the
//!   consumer, and the backpressure it exerts.
//! - [`session`]: the scan session: delivery of decoded events into the
//!   channel and the stop-scan teardown that fires exactly once.
//! - [`discover`]: the sequencer that yields already-connected devices before
//!   any live advertisement and delays the scan start until then.
//!
//! The calls into the managed runtime itself (attachment, class loading,
//! starting and stopping scans) are performed by an unverified glue layer
//! that consults the plans and state machines defined here.

pub mod attach;
pub mod channel;
pub mod decode;
pub mod discover;
pub mod events;
pub mod handle;
pub mod ids;
pub mod provision;
pub mod session;
