use sprite_animation::animation::SpriteAnimation;
use sprite_animation::frame::{SpriteAnimationDirection, SpriteAnimationFrame};

fn three_frames() -> Vec<SpriteAnimationFrame> {
    vec![
        SpriteAnimationFrame::new(0, 100_000),
        SpriteAnimationFrame::new(1, 100_000),
        SpriteAnimationFrame::new(2, 100_000),
    ]
}

#[test]
fn frame_accessors_report_construction() {
    let frame = SpriteAnimationFrame::new(5, 250_000);
    assert_eq!(frame.index(), 5);
    assert_eq!(frame.duration_micros(), 250_000);
}

#[test]
fn direction_reverse_swaps_and_defaults_forward() {
    assert_eq!(
        SpriteAnimationDirection::Forward.reverse(),
        SpriteAnimationDirection::Backward
    );
    assert_eq!(
        SpriteAnimationDirection::Backward.reverse(),
        SpriteAnimationDirection::Forward
    );
    assert_eq!(
        SpriteAnimationDirection::default(),
        SpriteAnimationDirection::Forward
    );
}

#[test]
fn next_visits_frames_in_order_then_exhausts() {
    let mut animation = SpriteAnimation::new(three_frames());
    assert_eq!(animation.next(), Some((0, SpriteAnimationFrame::new(0, 100_000))));
    assert_eq!(animation.next(), Some((1, SpriteAnimationFrame::new(1, 100_000))));
    assert_eq!(animation.next(), Some((2, SpriteAnimationFrame::new(2, 100_000))));
    assert_eq!(animation.next(), None);
    assert_eq!(animation.next(), None);
}

#[test]
fn next_back_visits_frames_in_reverse_then_exhausts() {
    let mut animation = SpriteAnimation::new(three_frames());
    assert_eq!(animation.next_back(), Some((2, SpriteAnimationFrame::new(2, 100_000))));
    assert_eq!(animation.next_back(), Some((1, SpriteAnimationFrame::new(1, 100_000))));
    assert_eq!(animation.next_back(), Some((0, SpriteAnimationFrame::new(0, 100_000))));
    assert_eq!(animation.next_back(), None);
}

#[test]
fn next_and_next_back_share_one_range() {
    let mut animation = SpriteAnimation::new(three_frames());
    assert_eq!(animation.next().map(|(i, _)| i), Some(0));
    assert_eq!(animation.next_back().map(|(i, _)| i), Some(2));
    assert_eq!(animation.next().map(|(i, _)| i), Some(1));
    assert_eq!(animation.next(), None);
    assert_eq!(animation.next_back(), None);
}

#[test]
fn reset_then_advance_yields_first_frame() {
    let mut animation = SpriteAnimation::new(three_frames());
    animation.next();
    animation.next();
    animation.reset();
    assert_eq!(animation.next(), Some((0, SpriteAnimationFrame::new(0, 100_000))));

    let mut exhausted = SpriteAnimation::new(three_frames());
    while exhausted.next().is_some() {}
    exhausted.reset();
    assert_eq!(exhausted.next(), Some((0, SpriteAnimationFrame::new(0, 100_000))));
}

#[test]
fn is_last_frame_tracks_direction() {
    let mut forward = SpriteAnimation::new(three_frames());
    assert!(!forward.is_last_frame());
    forward.next();
    assert!(!forward.is_last_frame());
    forward.next();
    forward.next();
    assert!(forward.is_last_frame());

    let mut backward = SpriteAnimation::new(three_frames())
        .with_direction(SpriteAnimationDirection::Backward);
    backward.next_back();
    assert!(!backward.is_last_frame());
    backward.next_back();
    backward.next_back();
    assert!(backward.is_last_frame());
}

#[test]
fn exhausted_cursor_is_not_terminal() {
    let mut animation = SpriteAnimation::new(three_frames());
    while animation.next().is_some() {}
    assert!(!animation.is_last_frame());
}

#[test]
fn builders_set_their_options() {
    let animation = SpriteAnimation::new(three_frames());
    assert!(!animation.despawn_on_finish());
    assert!(!animation.is_ping_pong());
    assert!(!animation.flip_x());
    assert_eq!(animation.direction(), SpriteAnimationDirection::Forward);

    let configured = SpriteAnimation::new(three_frames())
        .with_despawn_on_finish()
        .with_ping_pong()
        .with_flip_x()
        .with_direction(SpriteAnimationDirection::Backward);
    assert!(configured.despawn_on_finish());
    assert!(configured.is_ping_pong());
    assert!(configured.flip_x());
    assert_eq!(configured.direction(), SpriteAnimationDirection::Backward);
}

#[test]
fn reverse_direction_flips_the_stored_direction() {
    let mut animation = SpriteAnimation::new(three_frames());
    animation.reverse_direction();
    assert_eq!(animation.direction(), SpriteAnimationDirection::Backward);
    animation.reverse_direction();
    assert_eq!(animation.direction(), SpriteAnimationDirection::Forward);
}

#[test]
fn seed_timer_takes_the_boundary_frame_duration() {
    let frames = vec![
        SpriteAnimationFrame::new(4, 70_000),
        SpriteAnimationFrame::new(5, 90_000),
    ];
    let forward = SpriteAnimation::new(frames.clone());
    assert_eq!(forward.seed_timer().duration_micros(), 70_000);

    let backward = SpriteAnimation::new(frames).with_direction(SpriteAnimationDirection::Backward);
    assert_eq!(backward.seed_timer().duration_micros(), 90_000);
}

#[test]
fn single_frame_sequence_is_its_own_terminal() {
    let mut animation = SpriteAnimation::new(vec![SpriteAnimationFrame::new(9, 50_000)]);
    assert_eq!(animation.next(), Some((0, SpriteAnimationFrame::new(9, 50_000))));
    assert!(animation.is_last_frame());
}
