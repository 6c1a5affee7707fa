use granular::grains::{GrainPool, GrainState, MAX_GRAINS};

#[test]
fn new_pool_has_every_slot_stopped() {
    let pool = GrainPool::new();
    assert_eq!(pool.len(), MAX_GRAINS);
    for i in 0..MAX_GRAINS {
        assert_eq!(pool.state(i), GrainState::Stopped);
    }
}

#[test]
fn claim_takes_lowest_stopped_slot() {
    let mut pool = GrainPool::new();
    assert_eq!(pool.claim(), Some(0));
    assert_eq!(pool.claim(), Some(1));
    assert_eq!(pool.claim(), Some(2));
    assert_eq!(pool.state(0), GrainState::Attack);
    assert_eq!(pool.state(3), GrainState::Stopped);
}

#[test]
fn claim_fails_when_every_grain_sounds() {
    let mut pool = GrainPool::new();
    for i in 0..MAX_GRAINS {
        assert_eq!(pool.claim(), Some(i));
    }
    assert_eq!(pool.claim(), None);
    for i in 0..MAX_GRAINS {
        assert_eq!(pool.state(i), GrainState::Attack);
    }
}

#[test]
fn stopped_slot_is_reused_first() {
    let mut pool = GrainPool::new();
    for _ in 0..4 {
        pool.claim();
    }
    // slot 1 runs through its envelope
    assert!(pool.advance(1, true));
    assert_eq!(pool.state(1), GrainState::Sustain);
    assert!(pool.advance(1, false));
    assert_eq!(pool.state(1), GrainState::Sustain);
    assert!(pool.advance(1, true));
    assert_eq!(pool.state(1), GrainState::Release);
    assert!(pool.advance(1, true));
    assert_eq!(pool.state(1), GrainState::Stopped);
    assert!(!pool.advance(1, true));
    assert_eq!(pool.claim(), Some(1));
    assert_eq!(pool.claim(), Some(4));
}

#[test]
fn envelope_transitions() {
    assert_eq!(GrainState::Attack.after(false), GrainState::Attack);
    assert_eq!(GrainState::Attack.after(true), GrainState::Sustain);
    assert_eq!(GrainState::Sustain.after(false), GrainState::Sustain);
    assert_eq!(GrainState::Sustain.after(true), GrainState::Release);
    assert_eq!(GrainState::Release.after(false), GrainState::Release);
    assert_eq!(GrainState::Release.after(true), GrainState::Stopped);
    assert_eq!(GrainState::Stopped.after(false), GrainState::Stopped);
    assert_eq!(GrainState::Stopped.after(true), GrainState::Stopped);
}

#[test]
fn envelope_stops_after_three_limits() {
    let s = GrainState::Attack.after(true).after(true);
    assert!(s.is_sounding());
    assert_eq!(s.after(true), GrainState::Stopped);
    assert!(!GrainState::Stopped.is_sounding());
    assert!(GrainState::Release.is_sounding());
}
