use vstd::prelude::*;
use crate::crypto::CryptoHash;
use crate::types::BlockHeight;

verus! {

/// The part of a block approval that differs between endorsements and skips.
///
/// `Endorsement` approves the height directly above its parent and carries
/// the parent's hash; `Skip` approves a later height and carries the parent's
/// height instead.
#[derive(Debug, Clone, PartialEq, Eq, Hash)]
pub enum ApprovalInner {
    Endorsement(CryptoHash),
    Skip(BlockHeight),
}

/// What the payload of an approval for `target_height` built on the parent
/// `(parent_hash, parent_height)` is: an endorsement exactly when the target
/// is the height directly above the parent.
pub open spec fn spec_approval_inner(
    parent_hash: CryptoHash,
    parent_height: BlockHeight,
    target_height: BlockHeight,
) -> ApprovalInner {
    if target_height == parent_height + 1 {
        ApprovalInner::Endorsement(parent_hash)
    } else {
        ApprovalInner::Skip(parent_height)
    }
}

impl ApprovalInner {
    pub fn new(
        parent_hash: &CryptoHash,
        parent_height: BlockHeight,
        target_height: BlockHeight,
    ) -> (r: ApprovalInner)
        requires
            parent_height < BlockHeight::MAX,
        ensures
            r == spec_approval_inner(*parent_hash, parent_height, target_height),
    {
        if target_height == parent_height + 1 {
            ApprovalInner::Endorsement(*parent_hash)
        } else {
            ApprovalInner::Skip(parent_height)
        }
    }
}

/// The externally visible unit this library produces: an unsigned approval,
/// handed to a signing collaborator outside this crate.
#[derive(Debug, Clone, PartialEq, Eq)]
pub struct Approval {
    pub inner: ApprovalInner,
    pub target_height: BlockHeight,
}

/// The approval for `target_height` built on the given parent.
pub open spec fn spec_approval(
    parent_hash: CryptoHash,
    parent_height: BlockHeight,
    target_height: BlockHeight,
) -> Approval {
    Approval {
        inner: spec_approval_inner(parent_hash, parent_height, target_height),
        target_height,
    }
}

impl Approval {
    pub fn new(
        parent_hash: CryptoHash,
        parent_height: BlockHeight,
        target_height: BlockHeight,
    ) -> (r: Approval)
        requires
            parent_height < BlockHeight::MAX,
        ensures
            r == spec_approval(parent_hash, parent_height, target_height),
    {
        let inner = ApprovalInner::new(&parent_hash, parent_height, target_height);
        Approval { inner, target_height }
    }
}

} // verus!
