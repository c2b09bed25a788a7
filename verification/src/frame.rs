//! The frame loop: a two-state machine driving per-frame rendering.
//!
//! The loop starts in `Running`. On each idle polling tick while running it
//! invokes the render stub; on a window-close request it transitions to
//! `Destroying`, releasing the accelerator instance, and from then on does
//! nothing: no further render, no second release. The event pump itself
//! lives outside the library and feeds events to `FrameLoop::step`,
//! performing the action each step returns.

use vstd::prelude::*;

verus! {

/// The two states of the frame loop.
#[derive(Clone, Copy, PartialEq, Eq, Structural, Debug)]
pub enum LoopState {
    Running,
    Destroying,
}

/// An event handed to the loop by the window event pump.
#[derive(Clone, Copy, PartialEq, Eq, Structural, Debug)]
pub enum LoopEvent {
    /// The pump went idle: time to draw a frame.
    IdleTick,
    /// The user asked to close the window.
    CloseRequested,
    /// Anything else the pump reports.
    Other,
}

/// What the caller must do after a step.
#[derive(Clone, Copy, PartialEq, Eq, Structural, Debug)]
pub enum LoopAction {
    /// Invoke the render stub.
    Render,
    /// Release the accelerator instance and exit the loop.
    ReleaseInstance,
    /// Nothing.
    Ignore,
}

/// The transition function of the frame loop.
pub open spec fn spec_step(s: LoopState, e: LoopEvent) -> (LoopState, LoopAction) {
    match s {
        LoopState::Running => match e {
            LoopEvent::IdleTick => (LoopState::Running, LoopAction::Render),
            LoopEvent::CloseRequested => (LoopState::Destroying, LoopAction::ReleaseInstance),
            LoopEvent::Other => (LoopState::Running, LoopAction::Ignore),
        },
        LoopState::Destroying => (LoopState::Destroying, LoopAction::Ignore),
    }
}

/// The state after feeding a whole sequence of events.
pub open spec fn trace_state(s: LoopState, events: Seq<LoopEvent>) -> LoopState
    decreases events.len(),
{
    if events.len() == 0 {
        s
    } else {
        trace_state(spec_step(s, events[0]).0, events.drop_first())
    }
}

/// The actions produced while feeding a whole sequence of events.
pub open spec fn trace_actions(s: LoopState, events: Seq<LoopEvent>) -> Seq<LoopAction>
    decreases events.len(),
{
    if events.len() == 0 {
        Seq::empty()
    } else {
        seq![spec_step(s, events[0]).1] + trace_actions(
            spec_step(s, events[0]).0,
            events.drop_first(),
        )
    }
}

/// The frame loop: its state, and whether the accelerator instance has
/// already been released.
#[derive(Clone, Copy, PartialEq, Eq, Structural, Debug)]
pub struct FrameLoop {
    pub state: LoopState,
    pub released: bool,
}

impl FrameLoop {
    /// The instance is released when, and only when, the loop has reached
    /// its destroying state.
    pub open spec fn wf(self) -> bool {
        self.released <==> self.state is Destroying
    }

    /// A fresh loop: running, instance still held.
    pub fn new() -> (r: FrameLoop)
        ensures
            r.state is Running,
            !r.released,
            r.wf(),
    {
        FrameLoop { state: LoopState::Running, released: false }
    }

    /// Feed one event to the loop and learn what to do. A close request
    /// while running destroys the loop and releases the instance; once
    /// destroying, every event is ignored, so the instance is released at
    /// most once and the render stub is never invoked again.
    pub fn step(&mut self, e: LoopEvent) -> (a: LoopAction)
        requires
            old(self).wf(),
        ensures
            final(self).wf(),
            final(self).state == spec_step(old(self).state, e).0,
            a == spec_step(old(self).state, e).1,
            final(self).released == (old(self).released || a is ReleaseInstance),
            a is ReleaseInstance ==> !old(self).released,
    {
        match self.state {
            LoopState::Running => match e {
                LoopEvent::IdleTick => LoopAction::Render,
                LoopEvent::CloseRequested => {
                    self.state = LoopState::Destroying;
                    self.released = true;
                    LoopAction::ReleaseInstance
                },
                LoopEvent::Other => LoopAction::Ignore,
            },
            LoopState::Destroying => LoopAction::Ignore,
        }
    }
}

/// Once the loop is destroying, it stays destroying and never again asks
/// for a render or a release, whatever events still arrive.
pub proof fn lemma_destroying_is_terminal(events: Seq<LoopEvent>)
    ensures
        trace_state(LoopState::Destroying, events) is Destroying,
        trace_actions(LoopState::Destroying, events).len() == events.len(),
        forall|j: int| 0 <= j < events.len()
            ==> !((#[trigger] trace_actions(LoopState::Destroying, events)[j]) is Render),
        forall|j: int| 0 <= j < events.len()
            ==> !(trace_actions(LoopState::Destroying, events)[j] is ReleaseInstance),
    decreases events.len(),
{
    if events.len() > 0 {
        lemma_destroying_is_terminal(events.drop_first());
        let acts = trace_actions(LoopState::Destroying, events);
        let rest = trace_actions(LoopState::Destroying, events.drop_first());
        assert forall|j: int| 0 <= j < events.len() implies !((#[trigger] acts[j]) is Render)
            && !(acts[j] is ReleaseInstance) by {
            if j > 0 {
                assert(acts[j] == rest[j - 1]);
            }
        }
    }
}

/// Law: a close request while the loop is running transitions it to
/// destroying exactly once and releases the accelerator instance, and no
/// event that follows — however many there are — produces another render
/// or another release.
pub proof fn lemma_close_releases_once(later: Seq<LoopEvent>)
    ensures
        spec_step(LoopState::Running, LoopEvent::CloseRequested).0 is Destroying,
        spec_step(LoopState::Running, LoopEvent::CloseRequested).1 is ReleaseInstance,
        trace_state(LoopState::Destroying, later) is Destroying,
        trace_actions(LoopState::Destroying, later).len() == later.len(),
        forall|j: int| 0 <= j < later.len()
            ==> !((#[trigger] trace_actions(LoopState::Destroying, later)[j]) is Render),
        forall|j: int| 0 <= j < later.len()
            ==> !(trace_actions(LoopState::Destroying, later)[j] is ReleaseInstance),
{
    lemma_destroying_is_terminal(later);
}

} // verus!
