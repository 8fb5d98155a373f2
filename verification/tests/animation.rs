use wasmgl::animation::{
    Animation, AnimationDriver, FrameAction, Rotation, ANGLE_STEP, ANGLE_STEP_STEP, FULL_TURN,
};

#[test]
fn one_second_at_45_degrees_per_second_turns_by_45_degrees() {
    let mut rotation = Rotation::new(ANGLE_STEP);
    assert_eq!(rotation.advance(2_000), 0);
    assert_eq!(rotation.advance(3_000), 45_000);
    assert_eq!(rotation.angle(), 45_000);
    assert_eq!(rotation.last_render(), Some(3_000));
}

#[test]
fn eight_seconds_at_45_degrees_per_second_come_full_circle() {
    let mut rotation = Rotation::new(ANGLE_STEP);
    rotation.advance(0);
    let mut angles = vec![];
    for second in 1..=9u64 {
        angles.push(rotation.advance(second * 1_000));
    }
    assert_eq!(
        angles,
        vec![45_000, 90_000, 135_000, 180_000, 225_000, 270_000, 315_000, 0, 45_000]
    );
}

#[test]
fn the_first_frame_turns_nothing() {
    let mut rotation = Rotation::new(ANGLE_STEP);
    assert_eq!(rotation.last_render(), None);
    assert_eq!(rotation.advance(123_456_789), 0);
    assert_eq!(rotation.last_render(), Some(123_456_789));
}

#[test]
fn a_frame_of_sixteen_milliseconds_turns_by_the_rate_times_the_time() {
    let mut rotation = Rotation::new(ANGLE_STEP);
    rotation.advance(100);
    assert_eq!(rotation.advance(116), 720);
    assert_eq!(rotation.advance(133), 720 + 765);
}

#[test]
fn the_angle_stays_within_one_turn() {
    let mut rotation = Rotation::new(u32::MAX);
    rotation.advance(0);
    let angle = rotation.advance(u64::MAX);
    let travelled = (u32::MAX as u128 * u64::MAX as u128) / 1_000;
    assert_eq!(angle as u128, travelled % 360_000);
    assert!(angle < FULL_TURN);
}

#[test]
fn a_timestamp_before_the_last_one_turns_nothing() {
    let mut rotation = Rotation::new(ANGLE_STEP);
    rotation.advance(5_000);
    rotation.advance(6_000);
    assert_eq!(rotation.advance(4_000), 45_000);
    assert_eq!(rotation.last_render(), Some(4_000));
    assert_eq!(rotation.advance(5_000), 90_000);
}

#[test]
fn speed_up_adds_ten_degrees_until_a_full_turn_per_second() {
    let mut rotation = Rotation::new(ANGLE_STEP);
    rotation.speed_up();
    assert_eq!(rotation.rate(), 55_000);
    let mut rotation = Rotation::new(FULL_TURN - 1);
    rotation.speed_up();
    assert_eq!(rotation.rate(), FULL_TURN - 1 + ANGLE_STEP_STEP);
    rotation.speed_up();
    assert_eq!(rotation.rate(), FULL_TURN - 1 + ANGLE_STEP_STEP);
    let mut rotation = Rotation::new(FULL_TURN);
    rotation.speed_up();
    assert_eq!(rotation.rate(), FULL_TURN);
}

#[test]
fn speed_down_takes_ten_degrees_and_never_stops_the_page() {
    let mut rotation = Rotation::new(ANGLE_STEP);
    rotation.speed_down();
    assert_eq!(rotation.rate(), 35_000);
    rotation.speed_down();
    rotation.speed_down();
    assert_eq!(rotation.rate(), 15_000);
    rotation.speed_down();
    assert_eq!(rotation.rate(), 5_000);
    rotation.speed_down();
    assert_eq!(rotation.rate(), 5_000);
    let mut rotation = Rotation::new(ANGLE_STEP_STEP);
    rotation.speed_down();
    assert_eq!(rotation.rate(), ANGLE_STEP_STEP);
}

#[test]
fn the_pending_request_runs_once() {
    let mut driver = AnimationDriver::new();
    assert!(!driver.is_pending());
    let handle = driver.schedule_next_frame();
    assert_eq!(handle.id(), 0);
    assert!(driver.is_pending());
    assert!(driver.frame_fired(handle));
    assert!(!driver.is_pending());
    assert!(!driver.frame_fired(handle));
}

#[test]
fn a_cancelled_request_never_runs() {
    let mut driver = AnimationDriver::new();
    let cancelled = driver.schedule_next_frame();
    driver.cancel();
    assert!(!driver.is_pending());
    assert!(!driver.frame_fired(cancelled));
    let next = driver.schedule_next_frame();
    assert!(!driver.frame_fired(cancelled));
    assert!(driver.is_pending());
    assert!(driver.frame_fired(next));
    assert!(!driver.frame_fired(cancelled));
}

#[test]
fn a_replaced_request_never_runs() {
    let mut driver = AnimationDriver::new();
    let first = driver.schedule_next_frame();
    let second = driver.schedule_next_frame();
    assert_eq!((first.id(), second.id()), (0, 1));
    assert!(!driver.frame_fired(first));
    assert!(driver.is_pending());
    assert!(driver.frame_fired(second));
}

#[test]
fn cancelling_with_nothing_pending_changes_nothing() {
    let mut driver = AnimationDriver::new();
    driver.cancel();
    assert!(!driver.is_pending());
    assert!(driver.can_schedule());
    assert_eq!(driver.schedule_next_frame().id(), 0);
}

#[test]
fn chained_frames_keep_turning() {
    let mut animation = Animation::new(ANGLE_STEP);
    let mut handle = animation.reset_tick();
    let mut angles = vec![];
    for frame in 0..5u64 {
        match animation.animate(handle, true, 10_000 + frame * 1_000) {
            FrameAction::Draw { angle, next } => {
                angles.push(angle);
                handle = next;
            }
            other => panic!("frame {} was not drawn: {:?}", frame, other),
        }
    }
    assert_eq!(angles, vec![0, 45_000, 90_000, 135_000, 180_000]);
    assert!(animation.is_pending());
    assert_eq!(animation.angle(), 180_000);
}

#[test]
fn a_cancelled_chain_draws_nothing_more() {
    let mut animation = Animation::new(ANGLE_STEP);
    let first = animation.reset_tick();
    let second = match animation.animate(first, true, 0) {
        FrameAction::Draw { next, .. } => next,
        other => panic!("not drawn: {:?}", other),
    };
    animation.cancel();
    assert!(!animation.is_pending());
    assert_eq!(animation.animate(second, true, 1_000), FrameAction::Ignore);
    assert_eq!(animation.animate(first, true, 2_000), FrameAction::Ignore);
    assert_eq!(animation.angle(), 0);
    assert!(!animation.is_pending());
}

#[test]
fn a_chain_without_a_target_stops_silently() {
    let mut animation = Animation::new(ANGLE_STEP);
    let first = animation.reset_tick();
    assert_eq!(animation.animate(first, false, 0), FrameAction::Stop);
    assert!(!animation.is_pending());
    assert_eq!(animation.angle(), 0);
    assert_eq!(animation.animate(first, true, 1_000), FrameAction::Ignore);
}

#[test]
fn a_restarted_chain_goes_on_from_the_angle_reached() {
    let mut animation = Animation::new(ANGLE_STEP);
    let first = animation.reset_tick();
    let second = match animation.animate(first, true, 0) {
        FrameAction::Draw { next, .. } => next,
        other => panic!("not drawn: {:?}", other),
    };
    assert!(matches!(
        animation.animate(second, true, 2_000),
        FrameAction::Draw { angle: 90_000, .. }
    ));
    animation.cancel();
    let restarted = animation.reset_tick();
    assert!(matches!(
        animation.animate(restarted, true, 3_000),
        FrameAction::Draw { angle: 135_000, .. }
    ));
}

#[test]
fn speed_changes_the_rate_of_the_page() {
    let mut animation = Animation::new(ANGLE_STEP);
    animation.speed_up();
    assert_eq!(animation.rate(), 55_000);
    animation.speed_down();
    animation.speed_down();
    assert_eq!(animation.rate(), 35_000);
    let first = animation.reset_tick();
    let second = match animation.animate(first, true, 0) {
        FrameAction::Draw { next, .. } => next,
        other => panic!("not drawn: {:?}", other),
    };
    assert!(animation.can_schedule());
    assert!(matches!(
        animation.animate(second, true, 1_000),
        FrameAction::Draw { angle: 35_000, .. }
    ));
}
