//! The frame loop's decisions: what to do on each window event, how the
//! animation clock and the frame counter move, and what is reported when
//! the window closes.
//!
//! A frame that the compositor could not show stops the loop: the error is
//! handed to the caller and no further frame is begun.

use vstd::prelude::*;
use crate::error::{DivideByZero, FrameError};

verus! {

/// Ticks of the animation clock in one unit of the animation parameter:
/// each redraw advances the parameter by one fiftieth.
pub const TICKS_PER_UNIT: u64 = 50;

/// What the window system tells the frame loop.
#[derive(Clone, Copy, Debug, PartialEq, Eq, Structural)]
pub enum Event {
    /// The user asked to close the window, `elapsed_seconds` whole seconds
    /// after the loop began.
    CloseRequested { elapsed_seconds: u64 },
    /// The window wants its contents drawn.
    RedrawRequested,
    /// The event queue is empty.
    Idle,
    /// Anything else.
    Other,
}

/// What the frame loop asks of its caller.
#[derive(Clone, Copy, Debug, PartialEq, Eq)]
pub enum Action {
    /// Nothing to do.
    Nothing,
    /// Ask the window for a redraw.
    RequestRedraw,
    /// Render the frame of animation tick `tick`, then report how it went.
    Render { tick: u64 },
    /// Report the average frame rate and leave the event loop.
    Exit { average_fps: Result<u64, DivideByZero> },
    /// Leave the event loop because a frame failed.
    Abort { error: FrameError },
}

/// Whole frames per whole second. With less than one second elapsed there
/// is no quotient.
pub open spec fn spec_average_fps(frames: nat, elapsed_seconds: nat) -> Result<u64, DivideByZero> {
    if elapsed_seconds == 0 {
        Err(DivideByZero)
    } else {
        Ok((frames / elapsed_seconds) as u64)
    }
}

/// Whole frames per whole second. With less than one second elapsed there
/// is no quotient, and the error says so.
pub fn average_fps(frames: u64, elapsed_seconds: u64) -> (r: Result<u64, DivideByZero>)
    ensures
        r == spec_average_fps(frames as nat, elapsed_seconds as nat),
{
    if elapsed_seconds == 0 {
        Err(DivideByZero)
    } else {
        Ok(frames / elapsed_seconds)
    }
}

/// The state of the frame loop.
pub struct FrameStateView {
    /// Ticks of the animation clock so far: one for each frame begun.
    pub ticks: nat,
    /// Frames shown so far.
    pub frames: nat,
    /// Whether the loop has ended.
    pub stopped: bool,
}

impl FrameStateView {
    /// The state a loop starts in.
    pub open spec fn start() -> FrameStateView {
        FrameStateView { ticks: 0, frames: 0, stopped: false }
    }

    /// The state after a window event, and what the caller is to do.
    pub open spec fn on_event(self, event: Event) -> (FrameStateView, Action) {
        if self.stopped {
            (self, Action::Nothing)
        } else {
            match event {
                Event::Idle => (self, Action::RequestRedraw),
                Event::RedrawRequested => (
                    FrameStateView { ticks: self.ticks + 1, ..self },
                    Action::Render { tick: (self.ticks + 1) as u64 },
                ),
                Event::CloseRequested { elapsed_seconds } => (
                    FrameStateView { stopped: true, ..self },
                    Action::Exit {
                        average_fps: spec_average_fps(self.frames, elapsed_seconds as nat),
                    },
                ),
                Event::Other => (self, Action::Nothing),
            }
        }
    }

    /// The state after the compositor reported on a frame, and what the
    /// caller is to do. A report with no frame begun is passed over.
    pub open spec fn on_frame(self, outcome: Result<(), FrameError>) -> (FrameStateView, Action) {
        if self.stopped || self.frames >= self.ticks {
            (self, Action::Nothing)
        } else {
            match outcome {
                Ok(_) => (FrameStateView { frames: self.frames + 1, ..self }, Action::Nothing),
                Err(error) => (FrameStateView { stopped: true, ..self }, Action::Abort { error }),
            }
        }
    }

    /// The state after `count` frames were rendered and shown, one after
    /// the other.
    pub open spec fn after_frames(self, count: nat) -> FrameStateView
        decreases count,
    {
        if count == 0 {
            self
        } else {
            self.on_event(Event::RedrawRequested).0.on_frame(Ok(())).0.after_frames(
                (count - 1) as nat,
            )
        }
    }
}

/// The frame loop's own state: the animation clock and the frame counter.
#[derive(Debug)]
pub struct FrameState {
    ticks: u64,
    frames: u64,
    stopped: bool,
}

impl View for FrameState {
    type V = FrameStateView;

    closed spec fn view(&self) -> FrameStateView {
        FrameStateView {
            ticks: self.ticks as nat,
            frames: self.frames as nat,
            stopped: self.stopped,
        }
    }
}

impl FrameState {
    /// No more frames shown than begun.
    #[verifier::type_invariant]
    closed spec fn well_formed(self) -> bool {
        self.frames <= self.ticks
    }

    /// The state a loop starts in: clock at zero, no frame shown.
    pub fn new() -> (state: FrameState)
        ensures
            state@ == FrameStateView::start(),
    {
        FrameState { ticks: 0, frames: 0, stopped: false }
    }

    /// Ticks of the animation clock so far.
    pub fn ticks(&self) -> (n: u64)
        ensures
            n == self@.ticks,
    {
        self.ticks
    }

    /// Frames shown so far.
    pub fn frames(&self) -> (n: u64)
        ensures
            n == self@.frames,
            self@.frames <= self@.ticks,
    {
        proof {
            use_type_invariant(self);
        }
        self.frames
    }

    /// Whether the loop has ended.
    pub fn stopped(&self) -> (b: bool)
        ensures
            b == self@.stopped,
    {
        self.stopped
    }

    /// Reacts to a window event. An idle queue asks for a redraw. A redraw
    /// advances the animation clock by one tick and asks for the frame of
    /// that tick. A close ends the loop and reports the average frame
    /// rate. After the end every event is passed over.
    pub fn on_event(&mut self, event: Event) -> (action: Action)
        requires
            event == Event::RedrawRequested && !old(self)@.stopped ==> old(self)@.ticks
                < u64::MAX,
        ensures
            final(self)@ == old(self)@.on_event(event).0,
            action == old(self)@.on_event(event).1,
    {
        proof {
            use_type_invariant(&*self);
        }
        if self.stopped {
            return Action::Nothing;
        }
        match event {
            Event::Idle => Action::RequestRedraw,
            Event::RedrawRequested => {
                self.ticks = self.ticks + 1;
                Action::Render { tick: self.ticks }
            },
            Event::CloseRequested { elapsed_seconds } => {
                self.stopped = true;
                Action::Exit { average_fps: average_fps(self.frames, elapsed_seconds) }
            },
            Event::Other => Action::Nothing,
        }
    }

    /// Takes the compositor's report on the frame that was asked for. A
    /// frame shown is counted. A frame failed ends the loop with its
    /// error.
    pub fn on_frame(&mut self, outcome: Result<(), FrameError>) -> (action: Action)
        ensures
            final(self)@ == old(self)@.on_frame(outcome).0,
            action == old(self)@.on_frame(outcome).1,
    {
        proof {
            use_type_invariant(&*self);
        }
        if self.stopped || self.frames >= self.ticks {
            return Action::Nothing;
        }
        match outcome {
            Ok(_) => {
                self.frames = self.frames + 1;
                Action::Nothing
            },
            Err(error) => {
                self.stopped = true;
                Action::Abort { error }
            },
        }
    }
}

/// The animation clock never runs backwards and the counter never loses
/// a frame, whatever the event.
pub proof fn lemma_clock_is_monotone(state: FrameStateView, event: Event)
    ensures
        state.on_event(event).0.ticks >= state.ticks,
        state.on_event(event).0.frames == state.frames,
        event == Event::RedrawRequested && !state.stopped ==> state.on_event(event).0.ticks
            == state.ticks + 1,
{
}

/// Once ended, the loop stays ended and asks for nothing more.
pub proof fn lemma_stopped_is_final(
    state: FrameStateView,
    event: Event,
    outcome: Result<(), FrameError>,
)
    requires
        state.stopped,
    ensures
        state.on_event(event) == (state, Action::Nothing),
        state.on_frame(outcome) == (state, Action::Nothing),
{
}

/// After `count` frames rendered and shown from the start, the counter
/// stands at `count`, and a close after `elapsed_seconds` reports `count`
/// divided by the seconds, or the division by zero.
pub proof fn lemma_frames_are_counted(count: nat, elapsed_seconds: u64)
    ensures
        FrameStateView::start().after_frames(count).frames == count,
        FrameStateView::start().after_frames(count).ticks == count,
        FrameStateView::start().after_frames(count).on_event(
            Event::CloseRequested { elapsed_seconds },
        ).1 == (Action::Exit { average_fps: spec_average_fps(count, elapsed_seconds as nat) }),
{
    lemma_after_frames(FrameStateView::start(), count);
}

proof fn lemma_after_frames(state: FrameStateView, count: nat)
    requires
        !state.stopped,
        state.frames == state.ticks,
    ensures
        state.after_frames(count) == (FrameStateView {
            ticks: state.ticks + count,
            frames: state.frames + count,
            stopped: false,
        }),
    decreases count,
{
    if count > 0 {
        lemma_after_frames(
            state.on_event(Event::RedrawRequested).0.on_frame(Ok(())).0,
            (count - 1) as nat,
        );
    }
}

/// The reported rate is the whole part of frames over seconds: the rate
/// times the seconds does not exceed the frames, and one more per second
/// would.
pub proof fn lemma_average_fps_is_floor(frames: u64, elapsed_seconds: u64)
    requires
        elapsed_seconds > 0,
    ensures
        spec_average_fps(frames as nat, elapsed_seconds as nat) matches Ok(rate) && rate
            * elapsed_seconds <= frames < (rate + 1) * elapsed_seconds,
{
    let f = frames as int;
    let e = elapsed_seconds as int;
    vstd::arithmetic::div_mod::lemma_fundamental_div_mod(f, e);
    vstd::arithmetic::div_mod::lemma_mod_bound(f, e);
    vstd::arithmetic::div_mod::lemma_div_pos_is_pos(f, e);
    assert(f / e <= f) by {
        vstd::arithmetic::div_mod::lemma_div_is_ordered_by_denominator(f, 1, e);
        vstd::arithmetic::div_mod::lemma_div_basics(f);
    }
    let q = f / e;
    assert(q * e == e * q && (q + 1) * e == e * q + e) by (nonlinear_arith);
}

} // verus!
