use catevy::state::{ScreenShake, FULL_TRAUMA};
use catevy::timer::{Cooldown, NANOS_PER_MILLI};

#[test]
fn cooldown_from_millis_starts_unfinished() {
    let t = Cooldown::from_millis(250);
    assert_eq!(t.duration_ns(), 250 * NANOS_PER_MILLI);
    assert_eq!(t.elapsed_ns(), 0);
    assert!(!t.is_finished());
    assert_eq!(t.remaining_ns(), 250_000_000);
}

#[test]
fn cooldown_ready_is_finished() {
    let t = Cooldown::ready(340);
    assert!(t.is_finished());
    assert_eq!(t.elapsed_ns(), t.duration_ns());
    assert_eq!(t.remaining_ns(), 0);
}

#[test]
fn cooldown_ticks_up_and_stops_at_duration() {
    let mut t = Cooldown::from_millis(100);
    t.tick(40_000_000);
    assert_eq!(t.elapsed_ns(), 40_000_000);
    assert!(!t.is_finished());
    t.tick(59_999_999);
    assert!(!t.is_finished());
    t.tick(1);
    assert!(t.is_finished());
    assert_eq!(t.elapsed_ns(), 100_000_000);
    t.tick(5_000_000_000);
    assert_eq!(t.elapsed_ns(), 100_000_000);
    assert!(t.is_finished());
}

#[test]
fn cooldown_overshoot_finishes_at_once() {
    let mut t = Cooldown::from_millis(10);
    t.tick(u64::MAX);
    assert!(t.is_finished());
    assert_eq!(t.elapsed_ns(), 10_000_000);
}

#[test]
fn cooldown_reset_starts_over() {
    let mut t = Cooldown::ready(500);
    t.reset();
    assert!(!t.is_finished());
    assert_eq!(t.elapsed_ns(), 0);
    assert_eq!(t.duration_ns(), 500_000_000);
}

#[test]
fn cooldown_of_zero_finishes_on_first_tick() {
    let mut t = Cooldown::from_millis(0);
    assert!(!t.is_finished());
    t.tick(0);
    assert!(t.is_finished());
}

#[test]
fn shake_saturates_at_full_trauma() {
    let mut s = ScreenShake::new();
    assert_eq!(s.trauma(), 0);
    s.add(350);
    assert_eq!(s.trauma(), 350);
    s.add(600);
    assert_eq!(s.trauma(), 950);
    s.add(600);
    assert_eq!(s.trauma(), FULL_TRAUMA);
    s.add(u32::MAX);
    assert_eq!(s.trauma(), 1000);
}

#[test]
fn shake_decays_at_one_point_eight_per_second() {
    let mut s = ScreenShake::default();
    s.add(1000);
    // Half a second takes 0.9 of trauma.
    s.decay(500_000_000);
    assert_eq!(s.trauma(), 100);
    s.decay(1_000_000_000);
    assert_eq!(s.trauma(), 0);
}

#[test]
fn shake_amount_is_square_of_trauma() {
    let mut s = ScreenShake::new();
    s.add(500);
    assert_eq!(s.amount(), 250_000);
    s.add(500);
    assert_eq!(s.amount(), 1_000_000);
}

#[test]
fn law_shake_never_leaves_its_bounds() {
    let mut s = ScreenShake::new();
    let mut last = s.trauma();
    for step in 0..50u32 {
        if step % 3 == 0 {
            s.add(step * 97);
            assert!(s.trauma() >= last);
        } else {
            s.decay(16_000_000 * step as u64);
            assert!(s.trauma() <= last);
        }
        assert!(s.trauma() <= FULL_TRAUMA);
        last = s.trauma();
    }
}

#[test]
fn law_restarted_timer_finishes_after_duration_on_concrete_timer() {
    let mut t = Cooldown::ready(250);
    t.reset();
    t.tick(249_999_999);
    assert!(!t.is_finished());
    let mut u = Cooldown::ready(250);
    u.reset();
    u.tick(250_000_000);
    assert!(u.is_finished());
    assert_eq!(u.duration_ns(), 250_000_000);
}

#[test]
fn law_reset_forgets_ticks_on_concrete_timer() {
    let mut t = Cooldown::from_millis(400);
    t.tick(123_456_789);
    t.reset();
    let fresh = Cooldown::from_millis(400);
    assert_eq!(t.elapsed_ns(), fresh.elapsed_ns());
    assert_eq!(t.duration_ns(), fresh.duration_ns());
    assert_eq!(t.is_finished(), fresh.is_finished());
}
