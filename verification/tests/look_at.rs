use wasmgl::look_at::{key_from_code, Key, LookAt, EYE_Z, KEY_STEP};

#[test]
fn arrow_keys_have_their_codes() {
    assert_eq!(key_from_code(37), Some(Key::Left));
    assert_eq!(key_from_code(38), Some(Key::Up));
    assert_eq!(key_from_code(39), Some(Key::Right));
    assert_eq!(key_from_code(40), Some(Key::Down));
    assert_eq!(key_from_code(36), None);
    assert_eq!(key_from_code(41), None);
    assert_eq!(key_from_code(0), None);
    assert_eq!(key_from_code(13), None);
}

#[test]
fn each_key_moves_the_eye_by_a_hundredth() {
    let mut page: LookAt<()> = LookAt::new();
    assert_eq!(page.eye_position(), (0, 0));
    assert_eq!(page.on_key(Key::Left, true), Some((-10, 0)));
    assert_eq!(page.on_key(Key::Up, true), Some((-10, 10)));
    assert_eq!(page.on_key(Key::Right, true), Some((0, 10)));
    assert_eq!(page.on_key(Key::Right, true), Some((10, 10)));
    assert_eq!(page.on_key(Key::Down, true), Some((10, 0)));
    assert_eq!(page.eye_position(), (10, 0));
    assert_eq!((KEY_STEP, EYE_Z), (10, 250));
}

#[test]
fn keys_do_nothing_without_a_target() {
    let mut page: LookAt<()> = LookAt::new();
    assert_eq!(page.on_key(Key::Left, false), None);
    assert_eq!(page.eye_position(), (0, 0));
}

#[test]
fn keys_do_nothing_during_a_drag() {
    let mut page: LookAt<()> = LookAt::new();
    assert!(page.on_mouse_down(100, 100, ()).is_ok());
    assert!(page.is_tracking());
    assert_eq!(page.on_key(Key::Left, true), None);
    assert_eq!(page.on_key(Key::Up, true), None);
    assert_eq!(page.eye_position(), (0, 0));
}

#[test]
fn a_drag_is_shown_while_it_lasts_and_kept_when_it_ends() {
    let mut page: LookAt<u32> = LookAt::new();
    assert_eq!(page.on_key(Key::Right, true), Some((10, 0)));
    assert_eq!(page.on_mouse_down(100, 100, 7), Ok(()));
    assert_eq!(page.on_mouse_move(130, 90, true), Some((40, 10)));
    assert_eq!(page.eye_position(), (10, 0));
    assert_eq!(page.on_mouse_move(90, 120, true), Some((0, -20)));
    assert_eq!(page.eye_position(), (10, 0));
    assert_eq!(page.on_mouse_up(150, 100), Some(7));
    assert_eq!(page.eye_position(), (60, 0));
    assert!(!page.is_tracking());
    assert_eq!(page.on_key(Key::Down, true), Some((60, -10)));
}

#[test]
fn a_move_without_a_target_shows_nothing() {
    let mut page: LookAt<()> = LookAt::new();
    assert!(page.on_mouse_down(0, 0, ()).is_ok());
    assert_eq!(page.on_mouse_move(5, 5, false), None);
    assert_eq!(page.on_mouse_up(5, 5), Some(()));
    assert_eq!(page.eye_position(), (5, -5));
}

#[test]
fn pointer_events_without_a_drag_do_nothing() {
    let mut page: LookAt<()> = LookAt::new();
    assert_eq!(page.on_mouse_move(5, 5, true), None);
    assert_eq!(page.on_mouse_up(5, 5), None);
    assert_eq!(page.eye_position(), (0, 0));
}

#[test]
fn a_second_down_does_not_move_the_anchor() {
    let mut page: LookAt<u32> = LookAt::new();
    assert_eq!(page.on_mouse_down(10, 10, 1), Ok(()));
    assert_eq!(page.on_mouse_down(500, 500, 2), Err(2));
    assert_eq!(page.on_mouse_move(15, 12, true), Some((5, -2)));
    assert_eq!(page.on_mouse_up(20, 10), Some(1));
    assert_eq!(page.eye_position(), (10, 0));
}

#[test]
fn destroying_the_page_abandons_the_drag() {
    let mut page: LookAt<u32> = LookAt::new();
    assert_eq!(page.destroy(), None);
    assert_eq!(page.on_mouse_down(10, 10, 9), Ok(()));
    assert_eq!(page.on_mouse_move(40, 40, true), Some((30, -30)));
    assert_eq!(page.destroy(), Some(9));
    assert!(!page.is_tracking());
    assert_eq!(page.eye_position(), (0, 0));
    assert_eq!(page.on_mouse_up(40, 40), None);
}

#[test]
fn the_page_tells_what_it_can_take() {
    let mut page: LookAt<()> = LookAt::new();
    assert!(page.can_step(Key::Left));
    assert!(page.can_step(Key::Up));
    assert!(page.can_point(i32::MAX, i32::MIN));
    assert!(page.on_mouse_down(i32::MIN, i32::MAX, ()).is_ok());
    assert!(page.can_point(-1, 0));
    assert!(!page.can_point(0, 0));
    assert!(page.can_point(-1, -1));
    assert!(!page.can_point(-1, -2));
    assert_eq!(page.on_mouse_move(-1, 0, true), Some((i32::MAX as i64, i32::MAX as i64)));
}
