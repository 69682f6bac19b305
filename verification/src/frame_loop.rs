//! The frame loop as a state machine. The caller owns the window, the
//! surface and the queue; it hands every event to [`FrameLoop::step`],
//! performs the action that comes back and reports how it went.

use crate::frame::FramePlan;
use crate::surface::SurfaceConfig;
use vstd::prelude::*;

verus! {

/// Where the loop stands between two events.
#[derive(Clone, Copy, Debug, PartialEq, Eq, Hash, Structural)]
pub enum Phase {
    /// Waiting for the next event.
    Idle,
    /// A reconfiguration of the surface has been asked for and has not been
    /// reported done.
    ResizePending,
    /// The next frame has been asked for and has not arrived.
    RenderPending,
    /// The loop has ended. No frame is produced any more.
    Closing,
}

/// Why the surface could not hand out a frame.
#[derive(Clone, Copy, Debug, PartialEq, Eq, Hash, Structural)]
pub enum AcquireError {
    Timeout,
    Outdated,
    Lost,
    OutOfMemory,
}

/// What the caller reports to the loop: what the window system delivered, or
/// how the action that the loop last asked for went.
#[derive(Clone, Copy, Debug, PartialEq, Eq, Hash, Structural)]
pub enum Event {
    /// The window now has this size in pixels.
    Resized { width: u32, height: u32 },
    /// The window should be drawn.
    RedrawRequested,
    /// The user asked to close the window.
    CloseRequested,
    /// Anything else the window system delivers.
    Other,
    /// The surface has been configured as [`Action::Reconfigure`] asked.
    Reconfigured,
    /// The surface handed out the frame that [`Action::AcquireFrame`] asked
    /// for.
    FrameAcquired,
    /// The surface failed to hand out a frame.
    AcquireFailed(AcquireError),
}

/// What the caller has to do after a step.
#[derive(Clone, Copy, Debug, PartialEq, Eq)]
pub enum Action {
    /// Nothing: wait for the next event.
    Wait,
    /// Configure the surface with this configuration, then report
    /// [`Event::Reconfigured`].
    Reconfigure(SurfaceConfig),
    /// Ask the window system to schedule a redraw.
    RequestRedraw,
    /// Acquire the next frame from the surface, then report
    /// [`Event::FrameAcquired`] or [`Event::AcquireFailed`].
    AcquireFrame,
    /// Record this pass into the acquired frame, submit it and present the
    /// frame.
    Render(FramePlan),
    /// Leave the loop; the process ends cleanly.
    Exit,
    /// Leave the loop because of a failure that is not recovered from.
    Abort(AcquireError),
}

/// The state of the frame loop: its phase and the configuration the surface
/// was last asked to take.
#[derive(Clone, Copy, Debug, PartialEq, Eq)]
pub struct FrameLoop {
    pub phase: Phase,
    pub config: SurfaceConfig,
}

impl FrameLoop {
    /// The loop before any event: idle, with the configuration from setup.
    pub open spec fn new_spec(config: SurfaceConfig) -> FrameLoop {
        FrameLoop { phase: Phase::Idle, config }
    }

    /// The transition function: the state after `event` and the action to
    /// perform.
    ///
    /// A close request ends the loop from every phase. Otherwise, while idle,
    /// a resize to a size with both dimensions non-zero stores the size and
    /// asks for a reconfiguration, and a redraw request asks for a frame;
    /// while a reconfiguration is pending only its completion is acted on (a
    /// redraw is then requested); while a frame is pending only its arrival
    /// (render it) or its failure (abort) is. Everything else, a resize to an
    /// empty size included, changes nothing.
    pub open spec fn step_spec(self, event: Event) -> (FrameLoop, Action) {
        match (self.phase, event) {
            (_, Event::CloseRequested) => (
                FrameLoop { phase: Phase::Closing, ..self },
                Action::Exit,
            ),
            (Phase::Idle, Event::Resized { width, height }) => {
                if width > 0 && height > 0 {
                    let config = self.config.resized_spec(width, height);
                    (FrameLoop { phase: Phase::ResizePending, config }, Action::Reconfigure(config))
                } else {
                    (self, Action::Wait)
                }
            },
            (Phase::Idle, Event::RedrawRequested) => (
                FrameLoop { phase: Phase::RenderPending, ..self },
                Action::AcquireFrame,
            ),
            (Phase::ResizePending, Event::Reconfigured) => (
                FrameLoop { phase: Phase::Idle, ..self },
                Action::RequestRedraw,
            ),
            (Phase::RenderPending, Event::FrameAcquired) => (
                FrameLoop { phase: Phase::Idle, ..self },
                Action::Render(FramePlan::triangle_spec()),
            ),
            (Phase::RenderPending, Event::AcquireFailed(error)) => (
                FrameLoop { phase: Phase::Closing, ..self },
                Action::Abort(error),
            ),
            _ => (self, Action::Wait),
        }
    }

    /// The state after a whole sequence of events, and the actions that the
    /// steps returned, in order.
    pub open spec fn run(self, events: Seq<Event>) -> (FrameLoop, Seq<Action>)
        decreases events.len(),
    {
        if events.len() == 0 {
            (self, Seq::empty())
        } else {
            let (before, actions) = self.run(events.drop_last());
            let (after, action) = before.step_spec(events.last());
            (after, actions.push(action))
        }
    }

    /// Starts the loop with the configuration that setup produced.
    pub fn new(config: SurfaceConfig) -> (state: FrameLoop)
        ensures
            state == Self::new_spec(config),
    {
        FrameLoop { phase: Phase::Idle, config }
    }

    /// Takes one event and says what to do about it.
    ///
    /// The first clause says everything; the others spell out what it means
    /// for a resize to an empty size, for a close request and for a loop that
    /// has ended, and that the configuration only ever changes in size.
    pub fn step(&mut self, event: Event) -> (action: Action)
        ensures
            (*final(self), action) == old(self).step_spec(event),
            event is Resized && (event->width == 0 || event->height == 0) ==> action
                == Action::Wait && *final(self) == *old(self),
            event == Event::CloseRequested ==> action == Action::Exit && final(self).phase
                == Phase::Closing,
            old(self).phase == Phase::Closing ==> final(self).phase == Phase::Closing && (action
                == Action::Wait || action == Action::Exit),
            action is Reconfigure ==> action == Action::Reconfigure(final(self).config)
                && final(self).config.width > 0 && final(self).config.height > 0,
            final(self).config.format == old(self).config.format,
            final(self).config.usage == old(self).config.usage,
            final(self).config.present_mode == old(self).config.present_mode,
            final(self).config.alpha_mode == old(self).config.alpha_mode,
    {
        match event {
            Event::CloseRequested => {
                self.phase = Phase::Closing;
                Action::Exit
            },
            Event::Resized { width, height } => {
                if self.phase == Phase::Idle && width > 0 && height > 0 {
                    self.config = self.config.resized(width, height);
                    self.phase = Phase::ResizePending;
                    Action::Reconfigure(self.config)
                } else {
                    Action::Wait
                }
            },
            Event::RedrawRequested => {
                if self.phase == Phase::Idle {
                    self.phase = Phase::RenderPending;
                    Action::AcquireFrame
                } else {
                    Action::Wait
                }
            },
            Event::Reconfigured => {
                if self.phase == Phase::ResizePending {
                    self.phase = Phase::Idle;
                    Action::RequestRedraw
                } else {
                    Action::Wait
                }
            },
            Event::FrameAcquired => {
                if self.phase == Phase::RenderPending {
                    self.phase = Phase::Idle;
                    Action::Render(FramePlan::triangle())
                } else {
                    Action::Wait
                }
            },
            Event::AcquireFailed(error) => {
                if self.phase == Phase::RenderPending {
                    self.phase = Phase::Closing;
                    Action::Abort(error)
                } else {
                    Action::Wait
                }
            },
            Event::Other => Action::Wait,
        }
    }
}

/// The events of handling each of `sizes` in turn: the resize to that width
/// and height, followed by the report that the surface was reconfigured.
pub open spec fn resize_rounds(sizes: Seq<(u32, u32)>) -> Seq<Event>
    decreases sizes.len(),
{
    if sizes.len() == 0 {
        Seq::empty()
    } else {
        resize_rounds(sizes.drop_last()).push(
            Event::Resized { width: sizes.last().0, height: sizes.last().1 },
        ).push(Event::Reconfigured)
    }
}

/// How many of `actions` ask for the surface to be reconfigured.
pub open spec fn reconfigure_count(actions: Seq<Action>) -> nat
    decreases actions.len(),
{
    if actions.len() == 0 {
        0
    } else if actions.last() is Reconfigure {
        reconfigure_count(actions.drop_last()) + 1
    } else {
        reconfigure_count(actions.drop_last())
    }
}

/// One more action adds one to the count if it asks for a reconfiguration and
/// nothing otherwise.
pub proof fn lemma_reconfigure_count_push(actions: Seq<Action>, action: Action)
    ensures
        reconfigure_count(actions.push(action)) == reconfigure_count(actions) + if action
            is Reconfigure {
            1nat
        } else {
            0nat
        },
{
    assert(actions.push(action).drop_last() =~= actions);
}

/// Running a sequence that ends in `event` is running what comes before it
/// and then taking one step.
pub proof fn lemma_run_push(state: FrameLoop, events: Seq<Event>, event: Event)
    ensures
        state.run(events.push(event)) == ({
            let (before, actions) = state.run(events);
            let (after, action) = before.step_spec(event);
            (after, actions.push(action))
        }),
{
    assert(events.push(event).drop_last() =~= events);
}

/// Handling one resize while idle: the size is stored, the surface is
/// reconfigured once with the stored configuration, a redraw is requested,
/// and the loop is idle again.
pub proof fn lemma_resize_round(state: FrameLoop, width: u32, height: u32)
    requires
        state.phase == Phase::Idle,
        width > 0,
        height > 0,
    ensures
        ({
            let config = state.config.resized_spec(width, height);
            let (pending, first) = state.step_spec(Event::Resized { width, height });
            let (end, second) = pending.step_spec(Event::Reconfigured);
            &&& first == Action::Reconfigure(config)
            &&& pending == (FrameLoop { phase: Phase::ResizePending, config })
            &&& second == Action::RequestRedraw
            &&& end == (FrameLoop { phase: Phase::Idle, config })
        }),
{
}

/// After any sequence of resizes to sizes with both dimensions non-zero,
/// each handled to completion by an idle loop, the stored width and height
/// are those of the last resize, nothing else in the configuration has
/// changed, the loop is idle, and the surface was asked to reconfigure
/// exactly once per resize.
pub proof fn lemma_resizes_track_latest(state: FrameLoop, sizes: Seq<(u32, u32)>)
    requires
        state.phase == Phase::Idle,
        forall|i: int| 0 <= i < sizes.len() ==> sizes[i].0 > 0 && sizes[i].1 > 0,
    ensures
        ({
            let (end, actions) = state.run(resize_rounds(sizes));
            &&& end.phase == Phase::Idle
            &&& sizes.len() == 0 ==> end.config == state.config
            &&& sizes.len() > 0 ==> end.config == state.config.resized_spec(
                sizes.last().0,
                sizes.last().1,
            )
            &&& actions.len() == 2 * sizes.len()
            &&& reconfigure_count(actions) == sizes.len()
        }),
    decreases sizes.len(),
{
    if sizes.len() > 0 {
        let earlier = sizes.drop_last();
        let width = sizes.last().0;
        let height = sizes.last().1;
        lemma_resizes_track_latest(state, earlier);
        let (idle, done) = state.run(resize_rounds(earlier));
        let resized = Event::Resized { width, height };
        lemma_run_push(state, resize_rounds(earlier), resized);
        lemma_run_push(state, resize_rounds(earlier).push(resized), Event::Reconfigured);
        lemma_resize_round(idle, width, height);
        let first = idle.step_spec(resized).1;
        let second = idle.step_spec(resized).0.step_spec(Event::Reconfigured).1;
        assert(state.run(resize_rounds(sizes)).1 == done.push(first).push(second));
        lemma_reconfigure_count_push(done, first);
        lemma_reconfigure_count_push(done.push(first), second);
    }
}

/// A resize to a size with a zero dimension is ignored in every phase: the
/// state stays as it is and the surface is not asked to reconfigure.
pub proof fn lemma_empty_resize_is_ignored(state: FrameLoop, width: u32, height: u32)
    requires
        width == 0 || height == 0,
    ensures
        state.step_spec(Event::Resized { width, height }) == (state, Action::Wait),
{
}

/// Every step returns one action.
pub proof fn lemma_run_len(state: FrameLoop, events: Seq<Event>)
    ensures
        state.run(events).1.len() == events.len(),
    decreases events.len(),
{
    if events.len() > 0 {
        lemma_run_len(state, events.drop_last());
    }
}

/// Running one sequence after another is running their concatenation.
pub proof fn lemma_run_concat(state: FrameLoop, first: Seq<Event>, second: Seq<Event>)
    ensures
        state.run(first + second) == ({
            let (middle, head) = state.run(first);
            let (end, tail) = middle.run(second);
            (end, head + tail)
        }),
    decreases second.len(),
{
    let (middle, head) = state.run(first);
    if second.len() == 0 {
        assert(first + second =~= first);
        assert(head + Seq::<Action>::empty() =~= head);
    } else {
        lemma_run_concat(state, first, second.drop_last());
        assert((first + second).drop_last() =~= first + second.drop_last());
        let (before, tail) = middle.run(second.drop_last());
        let action = before.step_spec(second.last()).1;
        assert(head + tail.push(action) =~= (head + tail).push(action));
    }
}

/// A loop that has ended stays ended: whatever events follow, its state does
/// not change, no frame is acquired or rendered and the surface is not
/// reconfigured. The only actions still returned are `Wait` and, for a
/// close request, `Exit`.
pub proof fn lemma_closing_is_absorbing(state: FrameLoop, later: Seq<Event>)
    requires
        state.phase == Phase::Closing,
    ensures
        ({
            let (end, actions) = state.run(later);
            &&& end == state
            &&& actions.len() == later.len()
            &&& forall|i: int|
                0 <= i < actions.len() ==> #[trigger] actions[i] == Action::Wait || actions[i]
                    == Action::Exit
        }),
    decreases later.len(),
{
    if later.len() > 0 {
        lemma_closing_is_absorbing(state, later.drop_last());
    }
}

/// A close request ends the loop whatever its state when the request
/// arrives: idle, waiting for a reconfiguration, or waiting for a frame. In
/// any sequence of events from any state, the step that takes a close
/// request returns `Exit`, and no step after it acquires or renders a frame
/// or reconfigures the surface: all that is returned afterwards is `Wait`
/// and, for a repeated close request, `Exit`.
pub proof fn lemma_close_is_final(state: FrameLoop, events: Seq<Event>, close: int)
    requires
        0 <= close < events.len(),
        events[close] == Event::CloseRequested,
    ensures
        ({
            let (end, actions) = state.run(events);
            &&& end.phase == Phase::Closing
            &&& actions.len() == events.len()
            &&& actions[close] == Action::Exit
            &&& forall|i: int|
                close < i < actions.len() ==> #[trigger] actions[i] == Action::Wait || actions[i]
                    == Action::Exit
        }),
{
    let before = events.take(close);
    let after = events.skip(close + 1);
    let upto = before.push(Event::CloseRequested);
    assert(events =~= upto + after);
    lemma_run_concat(state, upto, after);
    lemma_run_push(state, before, Event::CloseRequested);
    lemma_run_len(state, before);
    let (closed, head) = state.run(upto);
    lemma_closing_is_absorbing(closed, after);
    let tail = closed.run(after).1;
    let actions = state.run(events).1;
    assert(actions == head + tail);
    assert forall|i: int| close < i < actions.len() implies #[trigger] actions[i] == Action::Wait
        || actions[i] == Action::Exit by {
        assert(actions[i] == tail[i - close - 1]);
    }
}

/// No sequence of events changes anything in the configuration but its width
/// and height. In particular the surface format stays the one chosen at
/// setup.
pub proof fn lemma_run_keeps_format(state: FrameLoop, events: Seq<Event>)
    ensures
        ({
            let end = state.run(events).0;
            &&& end.config.format == state.config.format
            &&& end.config.usage == state.config.usage
            &&& end.config.present_mode == state.config.present_mode
            &&& end.config.alpha_mode == state.config.alpha_mode
        }),
    decreases events.len(),
{
    if events.len() > 0 {
        lemma_run_keeps_format(state, events.drop_last());
    }
}

/// Actions that touch the surface are only returned in the phase that makes
/// them safe: a reconfiguration or an acquisition is only asked for while
/// idle, so never while the other is in flight, and a pass is only rendered
/// into a frame that was asked for.
pub proof fn lemma_actions_follow_phase(state: FrameLoop, event: Event)
    ensures
        ({
            let action = state.step_spec(event).1;
            &&& action is Reconfigure ==> state.phase == Phase::Idle
            &&& action is AcquireFrame ==> state.phase == Phase::Idle
            &&& action is RequestRedraw ==> state.phase == Phase::ResizePending
            &&& action is Render ==> state.phase == Phase::RenderPending
            &&& action is Abort ==> state.phase == Phase::RenderPending
        }),
{
}

} // verus!
