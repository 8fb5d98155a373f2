use wasmgl::draging::{Draging, Tracking};

#[test]
fn deltas_are_measured_from_the_anchor() {
    let mut draging: Draging<()> = Draging::new();
    assert!(draging.onmousedown(10, 10, ()).is_ok());
    assert_eq!(draging.onmousemove(15, 12), Some((5, 2)));
    assert_eq!(draging.onmouseup(20, 10), Some(((10, 0), ())));
    assert!(!draging.is_tracking());
}

#[test]
fn move_after_move_still_counts_from_the_anchor() {
    let mut draging: Draging<()> = Draging::new();
    assert!(draging.onmousedown(-3, 7, ()).is_ok());
    assert_eq!(draging.onmousemove(0, 0), Some((3, -7)));
    assert_eq!(draging.onmousemove(100, 50), Some((103, 43)));
    assert_eq!(draging.onmousemove(-3, 7), Some((0, 0)));
    assert_eq!(draging.anchor(), Some((-3, 7)));
}

#[test]
fn move_without_down_reports_nothing() {
    let mut draging: Draging<()> = Draging::new();
    assert_eq!(draging.onmousemove(15, 12), None);
    assert!(!draging.is_tracking());
    assert_eq!(draging.anchor(), None);
}

#[test]
fn up_without_down_reports_nothing() {
    let mut draging: Draging<()> = Draging::new();
    assert_eq!(draging.onmouseup(20, 10), None);
    assert!(!draging.is_tracking());
}

#[test]
fn second_down_is_rejected_and_keeps_the_anchor() {
    let mut draging: Draging<u32> = Draging::new();
    assert_eq!(draging.onmousedown(10, 10, 1), Ok(()));
    assert_eq!(draging.onmousedown(50, 60, 2), Err(2));
    assert_eq!(draging.anchor(), Some((10, 10)));
    assert_eq!(draging.onmousemove(50, 60), Some((40, 50)));
    assert_eq!(draging.onmouseup(11, 9), Some(((1, -1), 1)));
}

#[test]
fn a_new_drag_can_start_after_the_last_one_ended() {
    let mut draging: Draging<u32> = Draging::new();
    assert_eq!(draging.onmousedown(1, 1, 10), Ok(()));
    assert_eq!(draging.onmouseup(2, 2), Some(((1, 1), 10)));
    assert_eq!(draging.onmousedown(5, 5, 11), Ok(()));
    assert_eq!(draging.onmousemove(4, 8), Some((-1, 3)));
    assert_eq!(draging.onmouseup(5, 5), Some(((0, 0), 11)));
}

#[test]
fn what_was_saved_comes_back_at_the_end_of_the_drag() {
    let mut draging: Draging<String> = Draging::new();
    assert!(draging.onmousedown(0, 0, String::from("listeners")).is_ok());
    let released = draging.onmouseup(3, 4);
    assert_eq!(released, Some(((3, 4), String::from("listeners"))));
    assert_eq!(draging.onmouseup(3, 4), None);
}

#[test]
fn stop_tracking_gives_back_what_was_saved_and_no_delta() {
    let mut draging: Draging<u32> = Draging::new();
    assert_eq!(draging.stop_tracking(), None);
    assert_eq!(draging.onmousedown(10, 10, 42), Ok(()));
    assert!(draging.is_tracking());
    assert_eq!(draging.stop_tracking(), Some(42));
    assert!(!draging.is_tracking());
    assert_eq!(draging.onmousemove(11, 11), None);
}

#[test]
fn default_tracker_is_idle() {
    let draging: Draging<()> = Draging::default();
    assert!(!draging.is_tracking());
    assert_eq!(draging.anchor(), None);
}

#[test]
fn can_report_tells_offsets_that_do_not_fit() {
    let mut draging: Draging<()> = Draging::new();
    assert!(draging.can_report(i32::MAX, i32::MIN));
    assert!(draging.onmousedown(i32::MIN, i32::MAX, ()).is_ok());
    assert!(draging.can_report(-1, 0));
    assert!(draging.can_report(-1, -1));
    assert!(!draging.can_report(0, 0));
    assert!(!draging.can_report(-1, -2));
    assert_eq!(draging.onmousemove(-1, 0), Some((i32::MAX, -i32::MAX)));
    assert_eq!(draging.onmousemove(-1, -1), Some((i32::MAX, i32::MIN)));
}

#[test]
fn tracking_keeps_its_context_and_what_was_saved() {
    let tracking = Tracking::new((3, 4), "saved");
    assert_eq!(tracking.ctx_copied(), (3, 4));
    assert_eq!(tracking.ctx_copied(), (3, 4));
    assert_eq!(tracking.finish(), "saved");
}
