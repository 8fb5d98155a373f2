//! The eye point of a page that looks at its scene from a movable position.
//!
//! Arrow keys move the eye by a fixed step. A drag moves it by the offset of
//! the pointer from where the drag began: while the drag lasts the page is
//! shown from the position that the drag would lead to, and the eye itself
//! moves only when the drag ends. Keys do nothing during a drag.
//!
//! Positions are counted in thousandths of a unit of the scene; one pixel of
//! a drag is one thousandth.

use vstd::prelude::*;
use crate::draging::{delta_fits, delta_from, DragState, Draging};

verus! {

/// By how much one arrow key moves the eye, in thousandths.
pub const KEY_STEP: i64 = 10;

/// The height of the eye above the scene, in thousandths. Nothing moves it.
pub const EYE_Z: i64 = 250;

/// The four arrow keys.
#[derive(Clone, Copy, Debug, PartialEq, Eq, Structural)]
pub enum Key {
    Left,
    Right,
    Up,
    Down,
}

/// The arrow key with the key code `key_code`, if it is one: 37 is left, 38
/// up, 39 right and 40 down.
pub open spec fn key_of(key_code: u32) -> Option<Key> {
    if key_code == 37 {
        Some(Key::Left)
    } else if key_code == 38 {
        Some(Key::Up)
    } else if key_code == 39 {
        Some(Key::Right)
    } else if key_code == 40 {
        Some(Key::Down)
    } else {
        None
    }
}

/// The arrow key with the key code `key_code`, if it is one.
pub fn key_from_code(key_code: u32) -> (key: Option<Key>)
    ensures
        key == key_of(key_code),
{
    if key_code == 37 {
        Some(Key::Left)
    } else if key_code == 38 {
        Some(Key::Up)
    } else if key_code == 39 {
        Some(Key::Right)
    } else if key_code == 40 {
        Some(Key::Down)
    } else {
        None
    }
}

/// The position one step of `key` away from `eye`: left and right move along
/// the first axis, down and up along the second.
pub open spec fn stepped(eye: (int, int), key: Key) -> (int, int) {
    match key {
        Key::Left => (eye.0 - KEY_STEP, eye.1),
        Key::Right => (eye.0 + KEY_STEP, eye.1),
        Key::Up => (eye.0, eye.1 + KEY_STEP),
        Key::Down => (eye.0, eye.1 - KEY_STEP),
    }
}

/// The position that a drag by `delta` leads to from `eye`: the eye follows
/// the pointer along the first axis and goes against it along the second,
/// since pointer positions count downwards.
pub open spec fn dragged(eye: (int, int), delta: (i32, i32)) -> (int, int) {
    (eye.0 + delta.0, eye.1 - delta.1)
}

/// Both coordinates of `position` fit in an `i64`.
pub open spec fn representable(position: (int, int)) -> bool {
    &&& i64::MIN <= position.0 <= i64::MAX
    &&& i64::MIN <= position.1 <= i64::MAX
}

/// Whether a pointer at `(x, y)` can be taken by a page whose eye is at
/// `eye` and whose drag tracker is in `drag`: always while no drag is in
/// progress, and during a drag when the offset from the anchor fits and the
/// position it leads to is representable.
pub open spec fn pointer_in_range<L>(eye: (int, int), drag: DragState<L>, x: i32, y: i32) -> bool {
    match drag {
        DragState::Idle => true,
        DragState::Dragging { anchor, .. } => delta_fits(anchor, x, y) && representable(
            dragged(eye, delta_from(anchor, x, y)),
        ),
    }
}

/// The eye point of a page, with the drag that may be moving it.
pub struct LookAt<L> {
    eye_x: i64,
    eye_y: i64,
    draging: Draging<L>,
}

impl<L> LookAt<L> {
    /// Where the eye is.
    pub closed spec fn eye(&self) -> (int, int) {
        (self.eye_x as int, self.eye_y as int)
    }

    /// What the drag tracker of the page is doing.
    pub closed spec fn drag(&self) -> DragState<L> {
        self.draging@
    }

    /// A page with its eye at the origin and no drag in progress.
    pub fn new() -> (page: Self)
        ensures
            page.eye() == (0int, 0int),
            page.drag() == DragState::<L>::Idle,
    {
        LookAt { eye_x: 0, eye_y: 0, draging: Draging::new() }
    }

    /// Where the eye is.
    pub fn eye_position(&self) -> (eye: (i64, i64))
        ensures
            (eye.0 as int, eye.1 as int) == self.eye(),
    {
        (self.eye_x, self.eye_y)
    }

    /// Whether a drag is in progress.
    pub fn is_tracking(&self) -> (tracking: bool)
        ensures
            tracking == (self.drag() is Dragging),
    {
        self.draging.is_tracking()
    }

    /// Whether the eye can take one step of `key`.
    pub fn can_step(&self, key: Key) -> (fits: bool)
        ensures
            fits == representable(stepped(self.eye(), key)),
    {
        match key {
            Key::Left => self.eye_x >= i64::MIN + KEY_STEP,
            Key::Right => self.eye_x <= i64::MAX - KEY_STEP,
            Key::Up => self.eye_y <= i64::MAX - KEY_STEP,
            Key::Down => self.eye_y >= i64::MIN + KEY_STEP,
        }
    }

    /// Whether the page can take a pointer at `(x, y)`.
    pub fn can_point(&self, x: i32, y: i32) -> (fits: bool)
        ensures
            fits == pointer_in_range(self.eye(), self.drag(), x, y),
    {
        match self.draging.anchor() {
            None => true,
            Some(anchor) => {
                match (x.checked_sub(anchor.0), y.checked_sub(anchor.1)) {
                    (Some(dx), Some(dy)) => {
                        let dx: i64 = dx as i64;
                        let dy: i64 = dy as i64;
                        self.eye_x.checked_add(dx).is_some() && self.eye_y.checked_sub(dy).is_some()
                    },
                    _ => false,
                }
            },
        }
    }

    /// The arrow key `key` was pressed; `target_present` says whether the
    /// page has something to draw on. With a target and no drag in progress
    /// the eye moves one step, and the position to draw the page from comes
    /// back. Else nothing happens.
    pub fn on_key(&mut self, key: Key, target_present: bool) -> (render: Option<(i64, i64)>)
        requires
            target_present && old(self).drag() is Idle ==> representable(
                stepped(old(self).eye(), key),
            ),
        ensures
            final(self).drag() == old(self).drag(),
            target_present && old(self).drag() is Idle ==> {
                &&& final(self).eye() == stepped(old(self).eye(), key)
                &&& render matches Some(eye)
                &&& (eye.0 as int, eye.1 as int) == final(self).eye()
            },
            !(target_present && old(self).drag() is Idle) ==> {
                &&& final(self).eye() == old(self).eye()
                &&& render is None
            },
    {
        if target_present && !self.draging.is_tracking() {
            match key {
                Key::Left => {
                    self.eye_x = self.eye_x - KEY_STEP;
                },
                Key::Right => {
                    self.eye_x = self.eye_x + KEY_STEP;
                },
                Key::Up => {
                    self.eye_y = self.eye_y + KEY_STEP;
                },
                Key::Down => {
                    self.eye_y = self.eye_y - KEY_STEP;
                },
            }
            Some((self.eye_x, self.eye_y))
        } else {
            None
        }
    }

    /// Pointer-down at `(x, y)`: starts a drag anchored there unless one is
    /// in progress, as [`Draging::onmousedown`] does. The eye stays.
    pub fn on_mouse_down(&mut self, x: i32, y: i32, saved: L) -> (started: Result<(), L>)
        ensures
            final(self).eye() == old(self).eye(),
            old(self).drag() is Idle ==> started == Ok::<(), L>(()) && final(self).drag()
                == (DragState::Dragging { anchor: (x, y), saved }),
            old(self).drag() is Dragging ==> started == Err::<(), L>(saved) && final(self).drag()
                == old(self).drag(),
    {
        self.draging.onmousedown(x, y, saved)
    }

    /// Pointer-move to `(x, y)`; `target_present` says whether the page has
    /// something to draw on. During a drag, with a target, the position that
    /// the drag would lead to if it ended here comes back, for the page to
    /// be drawn from. Neither the eye nor the drag changes.
    pub fn on_mouse_move(&mut self, x: i32, y: i32, target_present: bool) -> (render: Option<
        (i64, i64),
    >)
        requires
            pointer_in_range(old(self).eye(), old(self).drag(), x, y),
        ensures
            final(self).eye() == old(self).eye(),
            final(self).drag() == old(self).drag(),
            match old(self).drag() {
                DragState::Dragging { anchor, .. } => if target_present {
                    render matches Some(eye) && (eye.0 as int, eye.1 as int) == dragged(
                        old(self).eye(),
                        delta_from(anchor, x, y),
                    )
                } else {
                    render is None
                },
                DragState::Idle => render is None,
            },
    {
        match self.draging.onmousemove(x, y) {
            Some((diff_x, diff_y)) => {
                if target_present {
                    Some((self.eye_x + diff_x as i64, self.eye_y - diff_y as i64))
                } else {
                    None
                }
            },
            None => None,
        }
    }

    /// Pointer-up at `(x, y)`. During a drag this ends it and moves the eye
    /// to the position that the drag leads to; what was saved when the drag
    /// began comes back. While idle nothing happens.
    pub fn on_mouse_up(&mut self, x: i32, y: i32) -> (released: Option<L>)
        requires
            pointer_in_range(old(self).eye(), old(self).drag(), x, y),
        ensures
            final(self).drag() == DragState::<L>::Idle,
            final(self).eye() == match old(self).drag() {
                DragState::Dragging { anchor, .. } => dragged(
                    old(self).eye(),
                    delta_from(anchor, x, y),
                ),
                DragState::Idle => old(self).eye(),
            },
            released == match old(self).drag() {
                DragState::Dragging { saved, .. } => Some(saved),
                DragState::Idle => None,
            },
    {
        match self.draging.onmouseup(x, y) {
            Some(((diff_x, diff_y), saved)) => {
                self.eye_x = self.eye_x + diff_x as i64;
                self.eye_y = self.eye_y - diff_y as i64;
                Some(saved)
            },
            None => None,
        }
    }

    /// The page goes away: a drag in progress is abandoned where it stands,
    /// the eye stays, and what was saved when the drag began comes back.
    pub fn destroy(&mut self) -> (released: Option<L>)
        ensures
            final(self).eye() == old(self).eye(),
            final(self).drag() == DragState::<L>::Idle,
            released == match old(self).drag() {
                DragState::Idle => None,
                DragState::Dragging { saved, .. } => Some(saved),
            },
    {
        self.draging.stop_tracking()
    }
}

} // verus!
