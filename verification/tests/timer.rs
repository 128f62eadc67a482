use sprite_animation::timer::SpriteAnimationTimer;

#[test]
fn fresh_timer_has_not_finished() {
    let timer = SpriteAnimationTimer::from_micros(100_000);
    assert_eq!(timer.duration_micros(), 100_000);
    assert_eq!(timer.elapsed_micros(), 0);
    assert!(!timer.just_finished());
}

#[test]
fn tick_accumulates_until_the_interval_elapses() {
    let mut timer = SpriteAnimationTimer::from_micros(100_000);
    timer.tick(40_000);
    assert_eq!(timer.elapsed_micros(), 40_000);
    assert!(!timer.just_finished());
    timer.tick(40_000);
    assert!(!timer.just_finished());
    timer.tick(40_000);
    assert!(timer.just_finished());
    assert_eq!(timer.elapsed_micros(), 100_000);
}

#[test]
fn just_finished_reports_only_the_completing_tick() {
    let mut timer = SpriteAnimationTimer::from_micros(50_000);
    timer.tick(50_000);
    assert!(timer.just_finished());
    timer.tick(10_000);
    assert!(!timer.just_finished());
    timer.tick(0);
    assert!(!timer.just_finished());
}

#[test]
fn paused_clock_delivers_zero_delta_and_never_finishes() {
    let mut timer = SpriteAnimationTimer::from_micros(30_000);
    timer.tick(0);
    timer.tick(0);
    assert_eq!(timer.elapsed_micros(), 0);
    assert!(!timer.just_finished());
}

#[test]
fn elapsed_time_saturates_at_the_interval() {
    let mut timer = SpriteAnimationTimer::from_micros(60_000);
    timer.tick(250_000);
    assert!(timer.just_finished());
    assert_eq!(timer.elapsed_micros(), 60_000);
}

#[test]
fn reset_rewinds_but_keeps_the_interval() {
    let mut timer = SpriteAnimationTimer::from_micros(80_000);
    timer.tick(80_000);
    timer.reset();
    assert_eq!(timer.duration_micros(), 80_000);
    assert_eq!(timer.elapsed_micros(), 0);
    assert!(!timer.just_finished());
}

#[test]
fn restart_discards_overshoot_and_takes_the_new_interval() {
    let mut timer = SpriteAnimationTimer::from_micros(100_000);
    timer.tick(170_000);
    assert!(timer.just_finished());
    timer.restart(40_000);
    assert_eq!(timer.duration_micros(), 40_000);
    assert_eq!(timer.elapsed_micros(), 0);
    assert!(!timer.just_finished());
    timer.tick(40_000);
    assert!(timer.just_finished());
}
