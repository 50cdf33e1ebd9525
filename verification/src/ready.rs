//! The ready-state classifier: maps the transport's raw numeric state into
//! the four-phase lifecycle that gates every send and end-of-stream decision.
//!
//! The classification is never cached: callers query the transport's live
//! state and classify it afresh at each gating decision, since it can change
//! asynchronously between two checks.

use vstd::prelude::*;

verus! {

/// The transport's current lifecycle phase.
#[derive(Clone, Copy, Debug, PartialEq, Eq, Structural)]
pub enum ReadyState {
    Connecting,
    Open,
    Closing,
    Closed,
}

/// What each raw state value the transport can report stands for. The
/// numbering is the WebSocket standard's: 0 connecting, 1 open, 2 closing,
/// 3 closed; anything else is rejected, never silently defaulted.
pub open spec fn ready_state_of(raw: u16) -> Option<ReadyState> {
    if raw == 0 {
        Some(ReadyState::Connecting)
    } else if raw == 1 {
        Some(ReadyState::Open)
    } else if raw == 2 {
        Some(ReadyState::Closing)
    } else if raw == 3 {
        Some(ReadyState::Closed)
    } else {
        None
    }
}

impl ReadyState {
    /// Classifies a raw state value; total over the valid domain, and rejects
    /// every unrecognized value.
    pub fn classify(raw: u16) -> (r: Option<ReadyState>)
        ensures
            r == ready_state_of(raw),
    {
        match raw {
            0 => Some(ReadyState::Connecting),
            1 => Some(ReadyState::Open),
            2 => Some(ReadyState::Closing),
            3 => Some(ReadyState::Closed),
            _ => None,
        }
    }
}

} // verus!
