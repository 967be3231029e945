//! Orchestration core for delegated ("sub-agent") conversations.
//!
//! A parent agent session can spawn a nested conversation, pipe operations
//! into it and events back out of it, and intercept every approval-requiring
//! event so that the sub-agent's request is resolved through the parent's
//! approval flow instead of reaching the sub-agent's consumer.
//!
//! The asynchronous plumbing (task spawning, channel awaits, the wire
//! transport) lives outside this crate; here stand the decisions that
//! plumbing carries out, each with a verified contract: the per-event
//! forwarding discipline, the approval relay with its cancellation
//! tie-break, the one-shot completion bridge, the bounded-channel model
//! with its backpressure behaviour, and the cancellation-token tree.

pub mod approval_wire;
pub mod cancel;
pub mod channel;
pub mod conversation;
pub mod delegate;
pub mod forwarder;
pub mod handshake;
pub mod home;
pub mod one_shot;
pub mod presets;
pub mod protocol;
pub mod relay;

use vstd::prelude::*;

verus! {

/// Capacity shared by every bounded channel of this subsystem.
pub const SUBMISSION_CHANNEL_CAPACITY: usize = 64;

} // verus!
