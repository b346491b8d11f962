//! Adaptor core for a chat-to-task gateway.
//!
//! Inbound chat messages become queued work items in a shared store; completed
//! results are delivered back to the originating chat. This crate holds the
//! adaptor's state and decisions: the pending-task registry, the update
//! poller's cursor arithmetic, the task creator's record construction, and the
//! response reconciler's delivery rules. All network traffic (the store, the
//! chat channel) is performed by the surrounding program, which feeds the
//! outcomes back into these functions.

pub mod adaptor;
pub mod api;
pub mod channel;
pub mod json;
pub mod registry;
pub mod task;
