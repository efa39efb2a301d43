use vstd::prelude::*;

verus! {

/// Height of a block.
pub type BlockHeight = u64;

/// Block height delta that measures the difference between `BlockHeight`s.
pub type BlockHeightDelta = u64;

/// A point in time, in milliseconds. The library never reads a clock itself:
/// every instant is either handed in by the caller or read through the
/// [`crate::clock::Clock`] collaborator.
pub type TimeMs = u64;

/// A span of time, in milliseconds.
pub type DurationMs = u64;

} // verus!
