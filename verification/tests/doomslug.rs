use doomslug::block::ApprovalInner;
use doomslug::clock::Clock;
use doomslug::crypto::hash;
use doomslug::doomslug::{ConfigError, Doomslug};

#[test]
fn test_endorsements_and_skips_basic() {
    let mut clock = Clock::fake_new();
    let mut ds = Doomslug::new(clock.clone(), 0, 400, 1000, 100, 3000).unwrap();

    // Set a new tip, must produce an endorsement
    ds.set_tip(hash(&[123]), 1, 1);
    clock.advance(399);
    assert_eq!(ds.process_timer().len(), 0);
    clock.advance(1);
    let approval = ds.process_timer().into_iter().nth(0).unwrap();
    assert_eq!(approval.inner, ApprovalInner::Endorsement(hash(&[123])));
    assert_eq!(approval.target_height, 2);

    // Same tip => no approval
    assert_eq!(ds.process_timer(), vec![]);

    // The block was final and therefore started the timer.
    // Try checking before one second expires
    clock.advance(599);
    assert_eq!(ds.process_timer(), vec![]);

    // But one second should trigger the skip
    clock.advance(1);
    match ds.process_timer() {
        approvals if approvals.is_empty() => assert!(false),
        approvals => {
            assert_eq!(approvals[0].inner, ApprovalInner::Skip(1));
            assert_eq!(approvals[0].target_height, 3);
        }
    }

    // Not processing a block at height 2 should not produce an approval
    ds.set_tip(hash(&[234]), 2, 0);
    clock.advance(400);
    assert_eq!(ds.process_timer(), vec![]);

    // Go forward more so we have 1 second
    clock.advance(600);

    // But at height 3 should (also neither block has finality set, keep last final at 0 for now)
    ds.set_tip(hash(&[31]), 3, 0);
    clock.advance(400);
    let approval = ds.process_timer().into_iter().nth(0).unwrap();
    assert_eq!(approval.inner, ApprovalInner::Endorsement(hash(&[31])));
    assert_eq!(approval.target_height, 4);

    // Go forward more so we have another second
    clock.advance(600);

    clock.advance(199);
    assert_eq!(ds.process_timer(), vec![]);

    clock.advance(1);
    match ds.process_timer() {
        approvals if approvals.is_empty() => assert!(false),
        approvals if approvals.len() == 1 => {
            assert_eq!(approvals[0].inner, ApprovalInner::Skip(3));
            assert_eq!(approvals[0].target_height, 5);
        }
        _ => assert!(false),
    }

    // Go forward more so we have another second
    clock.advance(800);

    // Now skip 5 (the extra delay is 200+300 = 500)
    clock.advance(499);
    assert_eq!(ds.process_timer(), vec![]);

    clock.advance(1);
    match ds.process_timer() {
        approvals if approvals.is_empty() => assert!(false),
        approvals => {
            assert_eq!(approvals[0].inner, ApprovalInner::Skip(3));
            assert_eq!(approvals[0].target_height, 6);
        }
    }

    // Go forward more so we have another second
    clock.advance(500);

    // Skip 6 (the extra delay is 0+200+300+400 = 900)
    clock.advance(899);
    assert_eq!(ds.process_timer(), vec![]);

    clock.advance(1);
    match ds.process_timer() {
        approvals if approvals.is_empty() => assert!(false),
        approvals => {
            assert_eq!(approvals[0].inner, ApprovalInner::Skip(3));
            assert_eq!(approvals[0].target_height, 7);
        }
    }
}

#[test]
fn test_set_tip_rearms_timer() {
    let mut clock = Clock::fake_new();
    let mut ds = Doomslug::new(clock.clone(), 17, 400, 1000, 100, 3000).unwrap();
    assert_eq!(ds.timer.height, 0);
    assert!(!ds.endorsement_pending);

    ds.set_tip(hash(&[5]), 41, 39);
    assert_eq!(ds.timer.height, 42);
    assert!(ds.endorsement_pending);
    assert_eq!(ds.largest_final_height, 39);
    assert_eq!(ds.largest_target_height, 17);

    // A second update rearms the timer whatever the prior state was.
    clock.advance(123_456);
    ds.set_tip(hash(&[6]), 7, 3);
    assert_eq!(ds.timer.height, 8);
    assert!(ds.endorsement_pending);
    assert_eq!(ds.largest_final_height, 3);
}

#[test]
fn test_bad_config_is_refused() {
    let clock = Clock::fake_new();
    // min_delay must be at least twice the endorsement delay.
    let r = Doomslug::new(clock.clone(), 0, 501, 1000, 100, 3000);
    assert_eq!(r.err(), Some(ConfigError::MinDelayTooShort));
    // The boundary configuration is accepted.
    assert!(Doomslug::new(clock, 0, 500, 1000, 100, 3000).is_ok());
}

#[test]
fn test_tick_is_capped_at_twenty_skips() {
    let mut clock = Clock::fake_new();
    let mut ds = Doomslug::new(clock.clone(), 0, 400, 1000, 100, 3000).unwrap();
    ds.set_tip(hash(&[9]), 1, 1);

    // Run far ahead: a single pass services the endorsement and at most
    // twenty overdue skips; the next pass picks up where it stopped.
    clock.advance(10_000_000);
    let first = ds.process_timer();
    assert_eq!(first.len(), 21);
    assert_eq!(first[0].inner, ApprovalInner::Endorsement(hash(&[9])));
    assert_eq!(first[0].target_height, 2);
    let skips = first
        .iter()
        .filter(|a| matches!(a.inner, ApprovalInner::Skip(_)))
        .count();
    assert_eq!(skips, 20);
    for (k, a) in first.iter().skip(1).enumerate() {
        assert_eq!(a.inner, ApprovalInner::Skip(1));
        assert_eq!(a.target_height, 3 + k as u64);
    }

    let second = ds.process_timer();
    assert_eq!(second.len(), 20);
    for a in &second {
        assert_eq!(a.inner, ApprovalInner::Skip(1));
    }
}

#[test]
fn test_skip_intervals_grow_to_cap() {
    let mut clock = Clock::fake_new();
    let mut ds = Doomslug::new(clock.clone(), 0, 400, 1000, 100, 3000).unwrap();
    ds.set_tip(hash(&[1]), 1, 1);
    clock.advance(400);
    let first = ds.process_timer();
    assert_eq!(first.len(), 1);
    assert_eq!(first[0].target_height, 2);

    // With the tip stalled, skips fire with strictly increasing targets,
    // spaced at non-decreasing intervals that approach but never exceed the
    // configured maximum delay; each fired skip raises the timed height by 1.
    let mut last_target = 2u64;
    let mut prev_gap = 0u64;
    let mut saw_cap = false;
    for _ in 0..30 {
        let height_before = ds.timer.height;
        let mut gap = 0u64;
        loop {
            clock.advance(1);
            gap += 1;
            assert!(gap <= 3000);
            let approvals = ds.process_timer();
            if !approvals.is_empty() {
                assert_eq!(approvals.len(), 1);
                assert_eq!(approvals[0].inner, ApprovalInner::Skip(1));
                assert!(approvals[0].target_height > last_target);
                assert_eq!(approvals[0].target_height, last_target + 1);
                last_target = approvals[0].target_height;
                break;
            }
        }
        assert_eq!(ds.timer.height, height_before + 1);
        assert!(gap >= prev_gap);
        if gap == 3000 {
            saw_cap = true;
        }
        prev_gap = gap;
    }
    assert!(saw_cap);
}
