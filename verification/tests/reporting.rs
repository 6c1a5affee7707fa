use granular::reporting::{StateCountdown, STATE_COUNT};

#[test]
fn reports_on_every_fiftieth_chunk() {
    let mut c = StateCountdown::new();
    let mut due_at = Vec::new();
    for k in 1..=(3 * STATE_COUNT as usize) {
        if c.tick() {
            due_at.push(k);
        }
    }
    assert_eq!(due_at, vec![50, 100, 150]);
}

#[test]
fn first_chunks_do_not_report() {
    let mut c = StateCountdown::new();
    for _ in 0..49 {
        assert!(!c.tick());
    }
    assert!(c.tick());
    assert!(!c.tick());
}
