use doomslug::block::{Approval, ApprovalInner};
use doomslug::crypto::hash;

#[test]
fn it_works() {}

#[test]
fn test_approval_kind_follows_target() {
    let parent = hash(&[7]);

    // The height directly above the parent gets an endorsement carrying the
    // parent's hash; any other height gets a skip carrying the parent's
    // height.
    assert_eq!(
        ApprovalInner::new(&parent, 10, 11),
        ApprovalInner::Endorsement(parent)
    );
    assert_eq!(ApprovalInner::new(&parent, 10, 12), ApprovalInner::Skip(10));
    assert_eq!(ApprovalInner::new(&parent, 10, 10), ApprovalInner::Skip(10));

    let approval = Approval::new(parent, 10, 11);
    assert_eq!(approval.inner, ApprovalInner::Endorsement(parent));
    assert_eq!(approval.target_height, 11);
}
