use paster::timing::{compute_delay, jittered_delay};

#[test]
fn delay_window_endpoints() {
    assert_eq!(compute_delay(50, 30, 0), 50);
    assert_eq!(compute_delay(50, 30, 29), 79);
    assert_eq!(compute_delay(50, 30, 30), 50);
    assert_eq!(compute_delay(50, 30, 59), 79);
}

#[test]
fn delay_always_in_window() {
    for r in 0..200u32 {
        let d = compute_delay(50, 30, r);
        assert!((50..=79).contains(&d));
    }
    let d = compute_delay(50, 30, u32::MAX);
    assert!((50..=79).contains(&d));
}

#[test]
fn jitter_span_of_one_gives_the_base_delay() {
    for r in [0u32, 1, 7, u32::MAX] {
        assert_eq!(compute_delay(120, 1, r), 120);
    }
}

#[test]
fn large_base_does_not_overflow() {
    assert_eq!(compute_delay(u32::MAX, u32::MAX, u32::MAX - 1), 2 * (u32::MAX as u64) - 1);
}

#[test]
fn jittered_delay_observes_the_window() {
    for _ in 0..200 {
        let d = jittered_delay(50, 30);
        assert!((50..=79).contains(&d));
    }
}
