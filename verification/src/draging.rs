//! Tracking of a pointer drag gesture.
//!
//! A drag starts at a pointer-down position, the anchor, and ends at the next
//! pointer-up. While it lasts the tracker keeps whatever the caller saved when
//! the drag began (the page-global pointer listeners that were installed
//! before), and hands it back exactly once: at pointer-up, or when tracking is
//! stopped early. Every offset that the tracker reports is measured from the
//! anchor, never from an intermediate position.

use vstd::prelude::*;

verus! {

/// What a tracker is doing, as contracts see it.
pub enum DragState<L> {
    /// No gesture is in progress.
    Idle,
    /// A gesture that began at `anchor` is in progress; `saved` is what the
    /// caller handed over when it began.
    Dragging { anchor: (i32, i32), saved: L },
}

/// Both components of the offset of `(x, y)` from `anchor` fit in an `i32`.
pub open spec fn delta_fits(anchor: (i32, i32), x: i32, y: i32) -> bool {
    &&& i32::MIN <= x - anchor.0 <= i32::MAX
    &&& i32::MIN <= y - anchor.1 <= i32::MAX
}

/// The offset of the position `(x, y)` from `anchor`: `(x - anchor.0,
/// y - anchor.1)`, wherever that fits.
pub open spec fn delta_from(anchor: (i32, i32), x: i32, y: i32) -> (i32, i32)
    recommends
        delta_fits(anchor, x, y),
{
    ((x - anchor.0) as i32, (y - anchor.1) as i32)
}

/// The offset of `(x, y)` from the anchor of `state` can be reported, which is
/// the case in particular whenever no drag is in progress.
pub open spec fn reportable<L>(state: DragState<L>, x: i32, y: i32) -> bool {
    match state {
        DragState::Idle => true,
        DragState::Dragging { anchor, .. } => delta_fits(anchor, x, y),
    }
}

/// What can happen to a tracker.
pub enum DragEvent<L> {
    /// Pointer-down at `(x, y)`, with `saved` for the tracker to keep if a
    /// drag starts.
    Down { x: i32, y: i32, saved: L },
    /// Pointer-move to `(x, y)`.
    Move { x: i32, y: i32 },
    /// Pointer-up at `(x, y)`.
    Up { x: i32, y: i32 },
    /// Tracking is stopped from outside, as when the page goes away.
    Stop,
}

/// The state after `event`. A pointer-down starts a drag only from `Idle`; a
/// pointer-move changes nothing; a pointer-up and a stop lead to `Idle`.
pub open spec fn after_drag_event<L>(state: DragState<L>, event: DragEvent<L>) -> DragState<L> {
    match event {
        DragEvent::Down { x, y, saved } => match state {
            DragState::Idle => DragState::Dragging { anchor: (x, y), saved },
            DragState::Dragging { .. } => state,
        },
        DragEvent::Move { .. } => state,
        DragEvent::Up { .. } => DragState::Idle,
        DragEvent::Stop => DragState::Idle,
    }
}

/// The offset that `event` makes a tracker in `state` report: that of a
/// pointer-move or pointer-up from the anchor during a drag, and none
/// otherwise.
pub open spec fn reported_delta<L>(state: DragState<L>, event: DragEvent<L>) -> Option<(i32, i32)> {
    match state {
        DragState::Idle => None,
        DragState::Dragging { anchor, .. } => match event {
            DragEvent::Move { x, y } => Some(delta_from(anchor, x, y)),
            DragEvent::Up { x, y } => Some(delta_from(anchor, x, y)),
            _ => None,
        },
    }
}

/// What `event` makes a tracker in `state` hand back: at the end of a drag
/// what was saved when it began, and at a pointer-down that starts no drag
/// what came with it.
pub open spec fn handed_back<L>(state: DragState<L>, event: DragEvent<L>) -> Option<L> {
    match state {
        DragState::Idle => None,
        DragState::Dragging { saved, .. } => match event {
            DragEvent::Down { saved: refused, .. } => Some(refused),
            DragEvent::Move { .. } => None,
            DragEvent::Up { .. } => Some(saved),
            DragEvent::Stop => Some(saved),
        },
    }
}

/// The state after all of `events`, in their order.
pub open spec fn after_drag_events<L>(state: DragState<L>, events: Seq<DragEvent<L>>) -> DragState<
    L,
>
    decreases events.len(),
{
    if events.len() == 0 {
        state
    } else {
        after_drag_event(after_drag_events(state, events.drop_last()), events.last())
    }
}

/// One drag in progress: the context recorded when it began, and what was
/// saved for its duration.
pub struct Tracking<T, L> {
    ctx: T,
    saved: L,
}

impl<T, L> Tracking<T, L> {
    /// The context recorded when tracking began.
    pub closed spec fn ctx(&self) -> T {
        self.ctx
    }

    /// What was saved when tracking began.
    pub closed spec fn saved(&self) -> L {
        self.saved
    }

    /// Begins tracking with the context `ctx`, keeping `saved` until the end.
    pub fn new(ctx: T, saved: L) -> (tracking: Self)
        ensures
            tracking.ctx() == ctx,
            tracking.saved() == saved,
    {
        Tracking { ctx, saved }
    }

    /// A copy of the context recorded when tracking began.
    pub fn ctx_copied(&self) -> (ctx: T) where T: Copy
        ensures
            ctx == self.ctx(),
    {
        self.ctx
    }

    /// Ends tracking and releases what was saved when it began.
    pub fn finish(self) -> (saved: L)
        ensures
            saved == self.saved(),
    {
        self.saved
    }
}

/// The drag tracker of one interactive page.
pub struct Draging<L> {
    tracking: Option<Tracking<(i32, i32), L>>,
}

impl<L> View for Draging<L> {
    type V = DragState<L>;

    closed spec fn view(&self) -> DragState<L> {
        match self.tracking {
            None => DragState::Idle,
            Some(tracking) => DragState::Dragging {
                anchor: tracking.ctx(),
                saved: tracking.saved(),
            },
        }
    }
}

impl<L> Default for Draging<L> {
    /// A tracker with no gesture in progress.
    fn default() -> (draging: Self)
        ensures
            draging@ == DragState::<L>::Idle,
    {
        Draging { tracking: None }
    }
}

impl<L> Draging<L> {
    /// A tracker with no gesture in progress.
    pub fn new() -> (draging: Self)
        ensures
            draging@ == DragState::<L>::Idle,
    {
        Draging { tracking: None }
    }

    /// Whether a drag is in progress.
    pub fn is_tracking(&self) -> (tracking: bool)
        ensures
            tracking == (self@ is Dragging),
    {
        self.tracking.is_some()
    }

    /// The anchor of the drag in progress, if there is one.
    pub fn anchor(&self) -> (anchor: Option<(i32, i32)>)
        ensures
            anchor == match self@ {
                DragState::Idle => None,
                DragState::Dragging { anchor, .. } => Some(anchor),
            },
    {
        match &self.tracking {
            None => None,
            Some(tracking) => Some(tracking.ctx_copied()),
        }
    }

    /// Whether `onmousemove` and `onmouseup` can report the position `(x, y)`:
    /// always while idle, and during a drag when the offset from the anchor
    /// fits in an `i32`.
    pub fn can_report(&self, x: i32, y: i32) -> (fits: bool)
        ensures
            fits == reportable(self@, x, y),
    {
        match &self.tracking {
            None => true,
            Some(tracking) => {
                let (start_x, start_y) = tracking.ctx_copied();
                x.checked_sub(start_x).is_some() && y.checked_sub(start_y).is_some()
            },
        }
    }

    /// Abandons the drag in progress, if any, without reporting an offset.
    /// Returns what was saved when that drag began, for the caller to put
    /// back.
    pub fn stop_tracking(&mut self) -> (saved: Option<L>)
        ensures
            final(self)@ == after_drag_event(old(self)@, DragEvent::Stop),
            saved == handed_back(old(self)@, DragEvent::Stop),
    {
        match self.tracking.take() {
            None => None,
            Some(tracking) => Some(tracking.finish()),
        }
    }

    /// Pointer-down at `(x, y)`. While idle this starts a drag anchored at
    /// `(x, y)`, which keeps `saved` until it ends. While a drag is already in
    /// progress nothing changes, and `saved` comes back in the error.
    pub fn onmousedown(&mut self, x: i32, y: i32, saved: L) -> (started: Result<(), L>)
        ensures
            final(self)@ == after_drag_event(old(self)@, DragEvent::Down { x, y, saved }),
            old(self)@ is Idle ==> started == Ok::<(), L>(()),
            old(self)@ is Dragging ==> started == Err::<(), L>(saved),
    {
        if self.tracking.is_none() {
            self.tracking = Some(Tracking::new((x, y), saved));
            Ok(())
        } else {
            Err(saved)
        }
    }

    /// Pointer-move to `(x, y)`. During a drag this reports the offset of
    /// `(x, y)` from the anchor; while idle it reports nothing. The state, and
    /// with it the anchor, stays as it was.
    pub fn onmousemove(&mut self, x: i32, y: i32) -> (delta: Option<(i32, i32)>)
        requires
            reportable(old(self)@, x, y),
        ensures
            final(self)@ == old(self)@,
            delta == reported_delta(old(self)@, DragEvent::Move { x, y }),
    {
        match &self.tracking {
            Some(tracking) => {
                let (start_x, start_y) = tracking.ctx_copied();
                Some((x - start_x, y - start_y))
            },
            None => None,
        }
    }

    /// Pointer-up at `(x, y)`. During a drag this ends it, and reports the
    /// final offset of `(x, y)` from the anchor together with what was saved
    /// when the drag began; while idle it reports nothing and stays idle.
    pub fn onmouseup(&mut self, x: i32, y: i32) -> (released: Option<((i32, i32), L)>)
        requires
            reportable(old(self)@, x, y),
        ensures
            final(self)@ == after_drag_event(old(self)@, DragEvent::Up { x, y }),
            released == match old(self)@ {
                DragState::Idle => None,
                DragState::Dragging { anchor, saved } => Some((delta_from(anchor, x, y), saved)),
            },
            released matches Some((delta, saved)) ==> {
                &&& Some(delta) == reported_delta(old(self)@, DragEvent::Up { x, y })
                &&& Some(saved) == handed_back(old(self)@, DragEvent::Up { x, y })
            },
    {
        match self.tracking.take() {
            Some(tracking) => {
                let (start_x, start_y) = tracking.ctx_copied();
                Some(((x - start_x, y - start_y), tracking.finish()))
            },
            None => None,
        }
    }
}

/// A pointer-move or a pointer-up that no pointer-down went before reports
/// no offset, hands nothing back, and leaves the tracker idle.
pub proof fn lemma_idle_tracker_reports_nothing<L>(x: i32, y: i32)
    ensures
        reported_delta(DragState::<L>::Idle, DragEvent::Move { x, y }) is None,
        reported_delta(DragState::<L>::Idle, DragEvent::Up { x, y }) is None,
        handed_back(DragState::<L>::Idle, DragEvent::Move { x, y }) is None,
        handed_back(DragState::<L>::Idle, DragEvent::Up { x, y }) is None,
        after_drag_event(DragState::<L>::Idle, DragEvent::Move { x, y }) is Idle,
        after_drag_event(DragState::<L>::Idle, DragEvent::Up { x, y }) is Idle,
{
}

/// A pointer-down during a drag is rejected: the anchor stays, what was saved
/// stays, and what came with the pointer-down goes back.
pub proof fn lemma_second_down_is_rejected<L>(
    anchor: (i32, i32),
    saved: L,
    x: i32,
    y: i32,
    refused: L,
)
    ensures
        after_drag_event(
            DragState::Dragging { anchor, saved },
            DragEvent::Down { x, y, saved: refused },
        ) == (DragState::Dragging { anchor, saved }),
        handed_back(
            DragState::Dragging { anchor, saved },
            DragEvent::Down { x, y, saved: refused },
        ) == Some(refused),
{
}

/// The anchor stays in force until the drag ends: whatever pointer-moves and
/// pointer-downs come during a drag, the tracker is afterwards in the state
/// it was in, so that the next offset is again measured from the point where
/// the drag began and not from any point in between.
pub proof fn lemma_anchor_stays_until_the_drag_ends<L>(
    anchor: (i32, i32),
    saved: L,
    events: Seq<DragEvent<L>>,
    x: i32,
    y: i32,
)
    requires
        forall|i: int|
            0 <= i < events.len() ==> (#[trigger] events[i] is Move || events[i] is Down),
    ensures
        after_drag_events(DragState::Dragging { anchor, saved }, events) == (DragState::Dragging {
            anchor,
            saved,
        }),
        reported_delta(
            after_drag_events(DragState::Dragging { anchor, saved }, events),
            DragEvent::Up { x, y },
        ) == Some(delta_from(anchor, x, y)),
        handed_back(
            after_drag_events(DragState::Dragging { anchor, saved }, events),
            DragEvent::Up { x, y },
        ) == Some(saved),
    decreases events.len(),
{
    if events.len() > 0 {
        let before = events.drop_last();
        assert forall|i: int| 0 <= i < before.len() implies (#[trigger] before[i] is Move
            || before[i] is Down) by {
            assert(before[i] == events[i]);
        }
        lemma_anchor_stays_until_the_drag_ends(anchor, saved, before, x, y);
        assert(events.last() == events[events.len() - 1]);
    }
}

/// A whole gesture: down at `down`, any number of moves, up at `up`. Each
/// move reports its offset from `down`, the tracker ends idle, and the final
/// offset is that of `up` from `down`.
pub proof fn lemma_gesture_is_measured_from_its_start<L>(
    down: (i32, i32),
    saved: L,
    via: (i32, i32),
    up: (i32, i32),
)
    ensures
        ({
            let dragging = after_drag_event(
                DragState::Idle,
                DragEvent::Down { x: down.0, y: down.1, saved },
            );
            let moved = after_drag_event(dragging, DragEvent::Move { x: via.0, y: via.1 });
            &&& dragging == (DragState::Dragging { anchor: down, saved })
            &&& reported_delta(dragging, DragEvent::<L>::Move { x: via.0, y: via.1 }) == Some(
                delta_from(down, via.0, via.1),
            )
            &&& moved == dragging
            &&& reported_delta(moved, DragEvent::<L>::Up { x: up.0, y: up.1 }) == Some(
                delta_from(down, up.0, up.1),
            )
            &&& after_drag_event(moved, DragEvent::<L>::Up { x: up.0, y: up.1 }) is Idle
        }),
{
}

} // verus!
