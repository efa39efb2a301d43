//! Doomslug: a timer-driven approval state machine for a blockchain node.
//!
//! The orchestrator watches the chain tip and, on a caller-driven tick,
//! decides whether to emit an *endorsement* (approval of the height directly
//! above the current tip) or one or more *skips* (approvals of later heights,
//! issued when the expected block failed to arrive in time).

pub mod block;
pub mod clock;
pub mod crypto;
pub mod doomslug;
pub mod types;
