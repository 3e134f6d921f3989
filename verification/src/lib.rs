//! Core of a desktop chat client: the request/event data model, the
//! per-dispatch streaming protocol, session bookkeeping, and the pieces of the
//! dispatch pipeline whose behaviour can be stated and proved.

pub mod messaging;
pub mod models;
pub mod scripted;
pub mod session;

use vstd::prelude::*;

verus! {

/// Capacity of the shared event queue that all dispatches feed; the bound is
/// the backpressure mechanism for producer tasks.
pub const EVENT_CHANNEL_CAPACITY: usize = 100;

/// Capacity of the one-shot cancellation channel allocated per dispatch.
pub const CANCEL_CHANNEL_CAPACITY: usize = 1;

} // verus!
