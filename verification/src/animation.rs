//! Animation by one callback per display refresh.
//!
//! A page asks for its next frame and gets a handle for the request. When the
//! frame comes round, the page learns from the driver whether the request is
//! still the pending one: a request that was cancelled, or replaced by a
//! later one, never has its callback run. Nothing here loops: a page animates
//! for as long as each callback asks for the frame after it.
//!
//! Time is counted in whole milliseconds of the display-refresh clock, angles
//! in thousandths of a degree, and rates of turning in thousandths of a
//! degree per second.

use vstd::prelude::*;

verus! {

/// One full turn, in thousandths of a degree.
pub const FULL_TURN: u32 = 360_000;

/// The rate at which an animated page turns unless told otherwise: 45 degrees
/// per second.
pub const ANGLE_STEP: u32 = 45_000;

/// By how much one request to speed up or to slow down changes the rate:
/// 10 degrees per second.
pub const ANGLE_STEP_STEP: u32 = 10_000;

/// The milliseconds between the frame before, if there was one, and the frame
/// at `now`. The first frame has no time behind it, and neither has a frame
/// whose timestamp lies before that of the frame before.
pub open spec fn elapsed_since(last_render: Option<u64>, now: u64) -> nat {
    match last_render {
        Some(last) => if last <= now {
            (now - last) as nat
        } else {
            0
        },
        None => 0,
    }
}

/// The angle reached from `angle` by turning at `rate` for `elapsed`
/// milliseconds: `angle + rate * elapsed / 1000`, brought back into one turn.
pub open spec fn turned(angle: nat, rate: nat, elapsed: nat) -> nat {
    (angle + rate * elapsed / 1000) % (FULL_TURN as nat)
}

/// The rate after one request to speed up: faster by one step, unless the
/// rate is a full turn per second or more already.
pub open spec fn sped_up(rate: nat) -> nat {
    if rate < FULL_TURN {
        rate + ANGLE_STEP_STEP as nat
    } else {
        rate
    }
}

/// The rate after one request to slow down: slower by one step, unless that
/// would bring it to a standstill or below.
pub open spec fn slowed_down(rate: nat) -> nat {
    if rate > ANGLE_STEP_STEP {
        (rate - ANGLE_STEP_STEP) as nat
    } else {
        rate
    }
}

/// The time-based state of a page that turns, as contracts see it.
pub struct Turning {
    /// The angle reached, in thousandths of a degree: below one full turn.
    pub angle: nat,
    /// The rate of turning, in thousandths of a degree per second.
    pub rate: nat,
    /// The timestamp of the last frame, if there was one.
    pub last_render: Option<u64>,
}

/// The angle of a page that turns, with its rate and the time of its last
/// frame.
#[derive(Clone, Copy, Debug)]
pub struct Rotation {
    angle: u32,
    rate: u32,
    last_render: Option<u64>,
}

impl View for Rotation {
    type V = Turning;

    closed spec fn view(&self) -> Turning {
        Turning {
            angle: self.angle as nat,
            rate: self.rate as nat,
            last_render: self.last_render,
        }
    }
}

impl Rotation {
    #[verifier::type_invariant]
    spec fn within_one_turn(self) -> bool {
        self.angle < FULL_TURN
    }

    /// A page at angle 0 that has drawn no frame yet and turns at `rate`.
    pub fn new(rate: u32) -> (rotation: Self)
        ensures
            rotation@ == (Turning { angle: 0, rate: rate as nat, last_render: None }),
    {
        Rotation { angle: 0, rate, last_render: None }
    }

    /// The angle reached, in thousandths of a degree: always below one full
    /// turn.
    pub fn angle(&self) -> (angle: u32)
        ensures
            angle == self@.angle,
            angle < FULL_TURN,
    {
        proof {
            use_type_invariant(self);
        }
        self.angle
    }

    /// The rate of turning, in thousandths of a degree per second.
    pub fn rate(&self) -> (rate: u32)
        ensures
            rate == self@.rate,
    {
        self.rate
    }

    /// The timestamp of the last frame, if there was one.
    pub fn last_render(&self) -> (last_render: Option<u64>)
        ensures
            last_render == self@.last_render,
    {
        self.last_render
    }

    /// The frame at `now`: turns the page by its rate times the milliseconds
    /// since the frame before, divided by 1000, and brings the angle back
    /// into one turn. Returns the new angle. The first frame turns nothing.
    pub fn advance(&mut self, now: u64) -> (angle: u32)
        ensures
            angle == final(self)@.angle,
            angle < FULL_TURN,
            final(self)@.angle == turned(
                old(self)@.angle,
                old(self)@.rate,
                elapsed_since(old(self)@.last_render, now),
            ),
            final(self)@.rate == old(self)@.rate,
            final(self)@.last_render == Some(now),
    {
        proof {
            use_type_invariant(&*self);
        }
        let elapsed: u64 = match self.last_render {
            Some(last) => if last <= now {
                now - last
            } else {
                0
            },
            None => 0,
        };
        let rate: u32 = self.rate;
        let old_angle: u32 = self.angle;
        assert(rate as u128 * elapsed as u128 <= 0xffff_ffff_u128 * 0xffff_ffff_ffff_ffff_u128)
            by (nonlinear_arith)
            requires
                rate as u128 <= 0xffff_ffff_u128,
                elapsed as u128 <= 0xffff_ffff_ffff_ffff_u128,
        ;
        let travelled: u128 = (rate as u128 * elapsed as u128) / 1000;
        let angle: u32 = ((old_angle as u128 + travelled) % (FULL_TURN as u128)) as u32;
        *self = Rotation { angle, rate, last_render: Some(now) };
        angle
    }

    /// One request to speed up: the rate grows by one step, unless it is a
    /// full turn per second or more already.
    pub fn speed_up(&mut self)
        ensures
            final(self)@.rate == sped_up(old(self)@.rate),
            final(self)@.angle == old(self)@.angle,
            final(self)@.last_render == old(self)@.last_render,
    {
        proof {
            use_type_invariant(&*self);
        }
        if self.rate < FULL_TURN {
            *self = Rotation {
                angle: self.angle,
                rate: self.rate + ANGLE_STEP_STEP,
                last_render: self.last_render,
            };
        }
    }

    /// One request to slow down: the rate shrinks by one step, unless that
    /// would bring it to a standstill or below.
    pub fn speed_down(&mut self)
        ensures
            final(self)@.rate == slowed_down(old(self)@.rate),
            final(self)@.angle == old(self)@.angle,
            final(self)@.last_render == old(self)@.last_render,
    {
        proof {
            use_type_invariant(&*self);
        }
        if self.rate > ANGLE_STEP_STEP {
            *self = Rotation {
                angle: self.angle,
                rate: self.rate - ANGLE_STEP_STEP,
                last_render: self.last_render,
            };
        }
    }
}

/// The requests of one driver, as contracts see them. Requests are numbered
/// in the order in which they were made, from 0.
pub struct Requests {
    /// How many requests were made so far.
    pub issued: nat,
    /// The number of the request whose frame is still to come, if there is
    /// one.
    pub pending: Option<nat>,
}

/// The pending request, if there is one, is one of those that were made.
pub open spec fn consistent(requests: Requests) -> bool {
    requests.pending matches Some(id) ==> id < requests.issued
}

/// The requests after one more was made: it takes the next number and is
/// the pending one, in place of whichever was pending before.
pub open spec fn after_schedule(requests: Requests) -> Requests {
    Requests { issued: requests.issued + 1, pending: Some(requests.issued) }
}

/// The requests after the pending one, if any, was cancelled.
pub open spec fn after_cancel(requests: Requests) -> Requests {
    Requests { issued: requests.issued, pending: None }
}

/// Whether the callback of request `id` runs when its frame comes round: it
/// does if and only if `id` is the pending request.
pub open spec fn callback_runs(requests: Requests, id: nat) -> bool {
    requests.pending == Some(id)
}

/// The requests after the frame of request `id` came round: if it was the
/// pending one, none is pending now; if not, nothing has changed.
pub open spec fn after_frame(requests: Requests, id: nat) -> Requests {
    if callback_runs(requests, id) {
        Requests { issued: requests.issued, pending: None }
    } else {
        requests
    }
}

/// What can happen to a driver.
pub enum DriverEvent {
    /// A new request is made.
    Schedule,
    /// The pending request is cancelled.
    Cancel,
    /// The frame of the request with this number comes round.
    Frame(nat),
}

/// The requests after `event`.
pub open spec fn after_event(requests: Requests, event: DriverEvent) -> Requests {
    match event {
        DriverEvent::Schedule => after_schedule(requests),
        DriverEvent::Cancel => after_cancel(requests),
        DriverEvent::Frame(id) => after_frame(requests, id),
    }
}

/// The requests after all of `events`, in their order.
pub open spec fn after_events(requests: Requests, events: Seq<DriverEvent>) -> Requests
    decreases events.len(),
{
    if events.len() == 0 {
        requests
    } else {
        after_event(after_events(requests, events.drop_last()), events.last())
    }
}

/// The handle of one request for a frame.
#[derive(Clone, Copy, Debug, PartialEq, Eq)]
pub struct AnimationHandle {
    id: u64,
}

impl View for AnimationHandle {
    type V = nat;

    /// The number of the request.
    closed spec fn view(&self) -> nat {
        self.id as nat
    }
}

impl AnimationHandle {
    /// The number of the request, for a caller that must carry it through a
    /// callback.
    pub fn id(&self) -> (id: u64)
        ensures
            id == self@,
    {
        self.id
    }
}

/// The frame requests of one animated page: at most one is pending at a time.
#[derive(Debug)]
pub struct AnimationDriver {
    issued: u64,
    pending: Option<u64>,
}

impl View for AnimationDriver {
    type V = Requests;

    closed spec fn view(&self) -> Requests {
        Requests {
            issued: self.issued as nat,
            pending: match self.pending {
                Some(id) => Some(id as nat),
                None => None,
            },
        }
    }
}

impl AnimationDriver {
    #[verifier::type_invariant]
    spec fn pending_was_issued(self) -> bool {
        self.pending matches Some(id) ==> id < self.issued
    }

    /// A driver that no request was made of yet.
    pub fn new() -> (driver: Self)
        ensures
            driver@ == (Requests { issued: 0, pending: None }),
    {
        AnimationDriver { issued: 0, pending: None }
    }

    /// Whether a request is pending.
    pub fn is_pending(&self) -> (pending: bool)
        ensures
            pending == (self@.pending is Some),
            consistent(self@),
    {
        proof {
            use_type_invariant(self);
        }
        self.pending.is_some()
    }

    /// Whether one more request can be numbered.
    pub fn can_schedule(&self) -> (room: bool)
        ensures
            room == (self@.issued < u64::MAX),
    {
        self.issued < u64::MAX
    }

    /// Requests the next frame. The new request takes the place of the one
    /// that was pending, if any: that one is cancelled by it.
    pub fn schedule_next_frame(&mut self) -> (handle: AnimationHandle)
        requires
            old(self)@.issued < u64::MAX,
        ensures
            final(self)@ == after_schedule(old(self)@),
            handle@ == old(self)@.issued,
            callback_runs(final(self)@, handle@),
    {
        let id: u64 = self.issued;
        *self = AnimationDriver { issued: id + 1, pending: Some(id) };
        AnimationHandle { id }
    }

    /// Cancels the pending request, if there is one: its callback will not
    /// run.
    pub fn cancel(&mut self)
        ensures
            final(self)@ == after_cancel(old(self)@),
    {
        *self = AnimationDriver { issued: self.issued, pending: None };
    }

    /// The frame of the request behind `handle` has come round. Returns
    /// whether its callback is to run: it is if and only if the request is
    /// the pending one, and then no request is pending any more.
    pub fn frame_fired(&mut self, handle: AnimationHandle) -> (run: bool)
        ensures
            run == callback_runs(old(self)@, handle@),
            final(self)@ == after_frame(old(self)@, handle@),
    {
        let run = match self.pending {
            Some(id) => id == handle.id,
            None => false,
        };
        if run {
            *self = AnimationDriver { issued: self.issued, pending: None };
        }
        run
    }
}

/// What a page does at one frame.
#[derive(Clone, Copy, Debug, PartialEq, Eq)]
pub enum FrameAction {
    /// The request behind the frame was cancelled or replaced: nothing is
    /// drawn and nothing is requested.
    Ignore,
    /// The page has nothing to draw on any more: nothing is drawn, nothing is
    /// requested, and the animation has come to its end.
    Stop,
    /// The page is drawn at `angle`, and `next` is the request for the frame
    /// after this one.
    Draw { angle: u32, next: AnimationHandle },
}

/// A page that turns, frame by frame.
#[derive(Debug)]
pub struct Animation {
    driver: AnimationDriver,
    rotation: Rotation,
}

impl Animation {
    /// The frame requests of the page.
    pub closed spec fn requests(&self) -> Requests {
        self.driver@
    }

    /// The angle, rate and last frame of the page.
    pub closed spec fn turning(&self) -> Turning {
        self.rotation@
    }

    /// A page at angle 0 that turns at `rate` and has requested no frame.
    pub fn new(rate: u32) -> (animation: Self)
        ensures
            animation.requests() == (Requests { issued: 0, pending: None }),
            animation.turning() == (Turning { angle: 0, rate: rate as nat, last_render: None }),
    {
        Animation { driver: AnimationDriver::new(), rotation: Rotation::new(rate) }
    }

    /// The angle reached, in thousandths of a degree.
    pub fn angle(&self) -> (angle: u32)
        ensures
            angle == self.turning().angle,
            angle < FULL_TURN,
    {
        self.rotation.angle()
    }

    /// The rate of turning, in thousandths of a degree per second.
    pub fn rate(&self) -> (rate: u32)
        ensures
            rate == self.turning().rate,
    {
        self.rotation.rate()
    }

    /// Whether a frame is requested.
    pub fn is_pending(&self) -> (pending: bool)
        ensures
            pending == (self.requests().pending is Some),
    {
        self.driver.is_pending()
    }

    /// Whether one more frame can be requested.
    pub fn can_schedule(&self) -> (room: bool)
        ensures
            room == (self.requests().issued < u64::MAX),
    {
        self.driver.can_schedule()
    }

    /// Requests the first frame, or a frame in place of the pending one.
    pub fn reset_tick(&mut self) -> (handle: AnimationHandle)
        requires
            old(self).requests().issued < u64::MAX,
        ensures
            final(self).requests() == after_schedule(old(self).requests()),
            final(self).turning() == old(self).turning(),
            handle@ == old(self).requests().issued,
    {
        self.driver.schedule_next_frame()
    }

    /// Cancels the pending request, if there is one, and with it the
    /// animation: no callback runs until a frame is requested anew.
    pub fn cancel(&mut self)
        ensures
            final(self).requests() == after_cancel(old(self).requests()),
            final(self).turning() == old(self).turning(),
    {
        self.driver.cancel()
    }

    /// One request to speed up.
    pub fn speed_up(&mut self)
        ensures
            final(self).requests() == old(self).requests(),
            final(self).turning() == (Turning {
                rate: sped_up(old(self).turning().rate),
                ..old(self).turning()
            }),
    {
        self.rotation.speed_up()
    }

    /// One request to slow down.
    pub fn speed_down(&mut self)
        ensures
            final(self).requests() == old(self).requests(),
            final(self).turning() == (Turning {
                rate: slowed_down(old(self).turning().rate),
                ..old(self).turning()
            }),
    {
        self.rotation.speed_down()
    }

    /// The frame of the request behind `handle` has come round at `now`, and
    /// `target_present` says whether the page still has something to draw on.
    ///
    /// A frame whose request is not the pending one is ignored and changes
    /// nothing. Else, without a target the animation stops: no request is
    /// pending afterwards. With a target the page turns by its rate times the
    /// milliseconds since its last frame, divided by 1000, is to be drawn at
    /// the angle reached, and has requested the frame after this one.
    pub fn animate(&mut self, handle: AnimationHandle, target_present: bool, now: u64) -> (action:
        FrameAction)
        requires
            callback_runs(old(self).requests(), handle@) && target_present ==> old(
                self,
            ).requests().issued < u64::MAX,
        ensures
            !callback_runs(old(self).requests(), handle@) ==> {
                &&& action == FrameAction::Ignore
                &&& final(self).requests() == old(self).requests()
                &&& final(self).turning() == old(self).turning()
            },
            callback_runs(old(self).requests(), handle@) && !target_present ==> {
                &&& action == FrameAction::Stop
                &&& final(self).requests() == after_cancel(old(self).requests())
                &&& final(self).turning() == old(self).turning()
            },
            callback_runs(old(self).requests(), handle@) && target_present ==> {
                &&& action matches FrameAction::Draw { angle, next }
                &&& angle == final(self).turning().angle
                &&& next@ == old(self).requests().issued
                &&& final(self).requests() == after_schedule(old(self).requests())
                &&& final(self).turning() == (Turning {
                    angle: turned(
                        old(self).turning().angle,
                        old(self).turning().rate,
                        elapsed_since(old(self).turning().last_render, now),
                    ),
                    rate: old(self).turning().rate,
                    last_render: Some(now),
                })
            },
    {
        if !self.driver.frame_fired(handle) {
            FrameAction::Ignore
        } else if !target_present {
            FrameAction::Stop
        } else {
            let angle = self.rotation.advance(now);
            let next = self.driver.schedule_next_frame();
            FrameAction::Draw { angle, next }
        }
    }
}

/// Turning for one second turns by the rate: from `angle`, 1000 milliseconds
/// at `rate` lead to `angle + rate`, brought back into one turn. At 45
/// degrees per second one such step is exactly 45 degrees.
pub proof fn lemma_one_second_turns_by_rate(angle: nat, rate: nat)
    ensures
        turned(angle, rate, 1000) == (angle + rate) % (FULL_TURN as nat),
        angle + ANGLE_STEP < FULL_TURN ==> turned(angle, ANGLE_STEP as nat, 1000) == angle
            + 45_000,
{
    assert(rate * 1000 / 1000 == rate);
}

/// Turning accumulates from frame to frame: two steps in a row lead to the
/// angle that the sum of what each step travels leads to, and a step always
/// ends within one turn.
pub proof fn lemma_turning_accumulates(angle: nat, rate: nat, first: nat, second: nat)
    ensures
        turned(angle, rate, first) < FULL_TURN,
        turned(turned(angle, rate, first), rate, second) == (angle + rate * first / 1000 + rate
            * second / 1000) % (FULL_TURN as nat),
{
}

/// What a page travels in frames that come `steps` milliseconds after one
/// another, at `rate`: the sum over the frames of `rate * step / 1000`.
pub open spec fn travelled(rate: nat, steps: Seq<nat>) -> nat
    decreases steps.len(),
{
    if steps.len() == 0 {
        0
    } else {
        travelled(rate, steps.drop_last()) + rate * steps.last() / 1000
    }
}

/// The angle reached from `angle` after frames that come `steps`
/// milliseconds after one another, each turning on from where the one
/// before it ended.
pub open spec fn turned_through(angle: nat, rate: nat, steps: Seq<nat>) -> nat
    decreases steps.len(),
{
    if steps.len() == 0 {
        angle
    } else {
        turned(turned_through(angle, rate, steps.drop_last()), rate, steps.last())
    }
}

/// However many frames follow one another, the angle reached is the angle at
/// the start plus all that was travelled since, brought back into one turn:
/// nothing is lost from frame to frame, and the angle never leaves one turn.
pub proof fn lemma_chain_of_frames_accumulates(angle: nat, rate: nat, steps: Seq<nat>)
    requires
        angle < FULL_TURN,
    ensures
        turned_through(angle, rate, steps) == (angle + travelled(rate, steps)) % (
        FULL_TURN as nat),
        turned_through(angle, rate, steps) < FULL_TURN,
    decreases steps.len(),
{
    if steps.len() > 0 {
        lemma_chain_of_frames_accumulates(angle, rate, steps.drop_last());
    }
}

/// A frame with no time behind it leaves the angle where it was.
pub proof fn lemma_first_frame_turns_nothing(angle: nat, rate: nat, now: u64)
    requires
        angle < FULL_TURN,
    ensures
        elapsed_since(None, now) == 0,
        turned(angle, rate, 0) == angle,
{
    assert(rate * 0 / 1000 == 0);
}

/// One event keeps the requests consistent, and cannot make a request
/// pending that was made before and is not pending.
pub proof fn lemma_event_keeps_request_dead(requests: Requests, id: nat, event: DriverEvent)
    requires
        consistent(requests),
        id < requests.issued,
        !callback_runs(requests, id),
    ensures
        consistent(after_event(requests, event)),
        id < after_event(requests, event).issued,
        !callback_runs(after_event(requests, event), id),
{
}

/// A request that was cancelled never has its callback run: once a request
/// that was made is not the pending one (because it was cancelled, because a
/// later request took its place, or because its frame has come round), no
/// course of events makes it pending again, so its frame, whenever it comes
/// round, runs nothing.
pub proof fn lemma_cancelled_request_never_runs(
    requests: Requests,
    id: nat,
    events: Seq<DriverEvent>,
)
    requires
        consistent(requests),
        id < requests.issued,
        !callback_runs(requests, id),
    ensures
        consistent(after_events(requests, events)),
        id < after_events(requests, events).issued,
        !callback_runs(after_events(requests, events), id),
        after_event(after_events(requests, events), DriverEvent::Frame(id)) == after_events(
            requests,
            events,
        ),
    decreases events.len(),
{
    if events.len() > 0 {
        lemma_cancelled_request_never_runs(requests, id, events.drop_last());
        lemma_event_keeps_request_dead(
            after_events(requests, events.drop_last()),
            id,
            events.last(),
        );
    }
}

/// Cancelling leaves no request pending, and a new request takes the place
/// of the pending one: in both cases the request that was pending is one
/// whose callback will not run.
pub proof fn lemma_cancel_and_replace(requests: Requests, id: nat)
    requires
        consistent(requests),
        callback_runs(requests, id),
    ensures
        !callback_runs(after_cancel(requests), id),
        !callback_runs(after_schedule(requests), id),
        callback_runs(after_schedule(requests), requests.issued),
{
}

} // verus!
