//! The frame loop driver: the event-driven state machine that owns the
//! shader program resource, reacts to the windowing layer's events, and
//! decides what every loop iteration does.
//!
//! The windowing layer delivers a batch of structured events once per
//! iteration; polling, the GPU viewport call, buffer clearing and buffer
//! swapping are external work performed by the surrounding program. Every
//! decision is made and proved here: how each event changes the host-side
//! viewport state and the loop state, which viewport-resize calls the GPU
//! must receive and in what order, which values the draw call is handed,
//! and when the loop terminates.

use vstd::prelude::*;
use crate::geometry::spec_vertex_count;
use crate::shader::{DrawCall, Shader, spec_elapsed_nanos};

verus! {

/// A key the driver's termination policy reads: the designated termination
/// key, or any other.
#[derive(Clone, Copy, Debug, PartialEq, Eq, Structural)]
pub enum LoopKey {
    Escape,
    Other,
}

/// What happened to a key, as the windowing layer reports it.
#[derive(Clone, Copy, Debug, PartialEq, Eq, Structural)]
pub enum KeyAction {
    Press,
    Release,
    Repeat,
}

/// One structured event from the windowing layer, in delivery order.
#[derive(Clone, Copy, Debug, PartialEq, Eq, Structural)]
pub enum WindowEvent {
    /// The drawable area changed to the given pixel extents.
    Resize(i32, i32),
    /// A key changed state.
    Key(LoopKey, KeyAction),
    /// The window was asked to close.
    CloseRequested,
    /// Any event the driver does not react to.
    Other,
}

/// The driver's two states. `Terminated` is absorbing: there is no
/// transition back to `Running`.
#[derive(Clone, Copy, Debug, PartialEq, Eq, Structural)]
pub enum LoopState {
    Running,
    Terminated,
}

/// Host-owned drawable dimensions: what the most recent resize event
/// reported, read by every draw call.
#[derive(Clone, Copy, Debug, PartialEq, Eq, Structural)]
pub struct Viewport {
    pub width: i32,
    pub height: i32,
}

/// The frame loop driver's whole mutable state.
pub struct FrameLoop {
    pub state: LoopState,
    pub viewport: Viewport,
}

/// Whether an event schedules termination: a close request, or a press of
/// the termination key.
pub open spec fn spec_terminates(e: WindowEvent) -> bool {
    e == WindowEvent::CloseRequested || e == (WindowEvent::Key(LoopKey::Escape, KeyAction::Press))
}

/// How one event moves the loop state.
pub open spec fn spec_step_state(s: LoopState, e: WindowEvent) -> LoopState {
    if s == LoopState::Terminated || spec_terminates(e) {
        LoopState::Terminated
    } else {
        LoopState::Running
    }
}

/// How one event moves the viewport: a resize overwrites it, everything
/// else leaves it alone.
pub open spec fn spec_step_viewport(v: Viewport, e: WindowEvent) -> Viewport {
    match e {
        WindowEvent::Resize(w, h) => (Viewport { width: w, height: h }),
        _ => v,
    }
}

/// The GPU viewport-resize call an event demands, if any.
pub open spec fn spec_resize_action(e: WindowEvent) -> Option<(i32, i32)> {
    match e {
        WindowEvent::Resize(w, h) => Some((w, h)),
        _ => None,
    }
}

/// The loop state after a whole batch of events, delivered in order.
pub open spec fn spec_fold_state(s: LoopState, es: Seq<WindowEvent>) -> LoopState
    decreases es.len(),
{
    if es.len() == 0 {
        s
    } else {
        spec_step_state(spec_fold_state(s, es.drop_last()), es.last())
    }
}

/// The viewport after a whole batch of events, delivered in order.
pub open spec fn spec_fold_viewport(v: Viewport, es: Seq<WindowEvent>) -> Viewport
    decreases es.len(),
{
    if es.len() == 0 {
        v
    } else {
        spec_step_viewport(spec_fold_viewport(v, es.drop_last()), es.last())
    }
}

/// The GPU viewport-resize calls a batch demands, in delivery order, none
/// dropped and none duplicated.
pub open spec fn spec_resize_actions(es: Seq<WindowEvent>) -> Seq<(i32, i32)>
    decreases es.len(),
{
    if es.len() == 0 {
        Seq::empty()
    } else {
        spec_resize_actions(es.drop_last()) + (match es.last() {
            WindowEvent::Resize(w, h) => seq![(w, h)],
            _ => Seq::empty(),
        })
    }
}

/// The extents of the last resize event in a batch, if any occurred.
pub open spec fn spec_last_resize(es: Seq<WindowEvent>) -> Option<(i32, i32)>
    decreases es.len(),
{
    if es.len() == 0 {
        None
    } else {
        match es.last() {
            WindowEvent::Resize(w, h) => Some((w, h)),
            _ => spec_last_resize(es.drop_last()),
        }
    }
}

impl FrameLoop {
    /// A fresh driver: running, with the construction-time drawable
    /// dimensions.
    pub fn new(width: i32, height: i32) -> (r: FrameLoop)
        ensures
            r.state == LoopState::Running,
            r.viewport == (Viewport { width, height }),
    {
        FrameLoop { state: LoopState::Running, viewport: Viewport { width, height } }
    }

    /// Reacts to one event: a resize overwrites the viewport synchronously
    /// and demands a GPU viewport-resize call; a close request or a press
    /// of the termination key schedules termination; nothing ever leaves
    /// `Terminated`.
    pub fn apply_event(&mut self, e: &WindowEvent) -> (resize: Option<(i32, i32)>)
        ensures
            final(self).state == spec_step_state(old(self).state, *e),
            final(self).viewport == spec_step_viewport(old(self).viewport, *e),
            resize == spec_resize_action(*e),
    {
        match e {
            WindowEvent::Resize(w, h) => {
                self.viewport = Viewport { width: *w, height: *h };
                Some((*w, *h))
            },
            WindowEvent::Key(LoopKey::Escape, KeyAction::Press) => {
                self.state = LoopState::Terminated;
                None
            },
            WindowEvent::CloseRequested => {
                self.state = LoopState::Terminated;
                None
            },
            _ => None,
        }
    }

    /// Consumes one whole batch of events in delivery order. A termination
    /// event does not interrupt the batch: the remaining events are still
    /// consumed, so a resize after the termination event still lands in the
    /// viewport. Returns the demanded GPU viewport-resize calls, in order.
    pub fn process_events(&mut self, events: &Vec<WindowEvent>) -> (resizes: Vec<(i32, i32)>)
        ensures
            final(self).state == spec_fold_state(old(self).state, events@),
            final(self).viewport == spec_fold_viewport(old(self).viewport, events@),
            resizes@ == spec_resize_actions(events@),
    {
        let mut resizes: Vec<(i32, i32)> = Vec::new();
        let mut i: usize = 0;
        while i < events.len()
            invariant
                i <= events.len(),
                self.state == spec_fold_state(old(self).state, events@.take(i as int)),
                self.viewport == spec_fold_viewport(old(self).viewport, events@.take(i as int)),
                resizes@ == spec_resize_actions(events@.take(i as int)),
            decreases events.len() - i,
        {
            let ghost prefix = events@.take(i as int);
            let r = self.apply_event(&events[i]);
            if let Some(extent) = r {
                resizes.push(extent);
            }
            proof {
                assert(events@.take(i + 1).drop_last() =~= prefix);
                assert(events@.take(i + 1).last() == events@[i as int]);
            }
            i = i + 1;
        }
        proof {
            assert(events@.take(events@.len() as int) =~= events@);
        }
        resizes
    }

    /// Whether the loop runs another iteration.
    pub fn should_continue(&self) -> (r: bool)
        ensures
            r == (self.state == LoopState::Running),
    {
        self.state == LoopState::Running
    }
}

/// What one loop iteration tells the surrounding program to do, in order:
/// issue the GPU viewport-resize calls, then (after clearing) issue the
/// draw call with these inputs, present the frame, and continue only while
/// the driver still runs.
pub struct FrameRender {
    pub resizes: Vec<(i32, i32)>,
    pub draw: DrawCall,
    pub continue_running: bool,
}

impl FrameLoop {
    /// One whole loop iteration over the freshly polled event batch: every
    /// event is consumed in order, the draw call reads the viewport as the
    /// batch left it and the elapsed time of the given clock reading, and
    /// the loop goes on exactly while no termination event has ever been
    /// observed. The iteration's draw still happens when this batch
    /// terminates the loop; no further iteration follows it.
    pub fn frame(&mut self, events: &Vec<WindowEvent>, shader: &Shader, now_nanos: u64) -> (r:
        FrameRender)
        requires
            shader.created_at_nanos <= now_nanos,
        ensures
            final(self).state == spec_fold_state(old(self).state, events@),
            final(self).viewport == spec_fold_viewport(old(self).viewport, events@),
            r.resizes@ == spec_resize_actions(events@),
            r.draw.width == final(self).viewport.width,
            r.draw.height == final(self).viewport.height,
            r.draw.elapsed_nanos == spec_elapsed_nanos(*shader, now_nanos),
            r.draw.vertex_count == spec_vertex_count(),
            r.continue_running == (final(self).state == LoopState::Running),
    {
        let resizes = self.process_events(events);
        let draw = shader.draw(now_nanos, self.viewport.width, self.viewport.height);
        let continue_running = self.should_continue();
        FrameRender { resizes, draw, continue_running }
    }
}

/// The viewport a batch leaves behind is exactly the extent of the last
/// resize event in the batch — or the viewport from before the batch, if
/// the batch held no resize. Held against `frame`, this says: the
/// width/height passed into a draw call equal the last resize observed
/// before it, or the construction-time values if none ever occurred.
pub proof fn lemma_last_resize_wins(v: Viewport, es: Seq<WindowEvent>)
    ensures
        spec_fold_viewport(v, es) == (match spec_last_resize(es) {
            Some(extent) => (Viewport { width: extent.0, height: extent.1 }),
            None => v,
        }),
    decreases es.len(),
{
    if es.len() > 0 {
        lemma_last_resize_wins(v, es.drop_last());
    }
}

/// Termination is final: once the driver is `Terminated`, no batch of
/// events — of any length — brings it back to `Running`.
pub proof fn lemma_termination_is_final(es: Seq<WindowEvent>)
    ensures
        spec_fold_state(LoopState::Terminated, es) == LoopState::Terminated,
    decreases es.len(),
{
    if es.len() > 0 {
        lemma_termination_is_final(es.drop_last());
    }
}

/// The loop is terminated after a batch exactly when it already was before
/// it, or the batch holds a close request or a press of the termination
/// key.
pub proof fn lemma_termination_characterised(s: LoopState, es: Seq<WindowEvent>)
    ensures
        spec_fold_state(s, es) == LoopState::Terminated <==> (s == LoopState::Terminated || exists|
            i: int,
        | 0 <= i < es.len() && spec_terminates(#[trigger] es[i])),
    decreases es.len(),
{
    if es.len() > 0 {
        lemma_termination_characterised(s, es.drop_last());
        if spec_terminates(es.last()) {
            assert(spec_terminates(es[es.len() - 1]));
        }
        if exists|i: int| 0 <= i < es.len() && spec_terminates(#[trigger] es[i]) {
            let i = choose|i: int| 0 <= i < es.len() && spec_terminates(#[trigger] es[i]);
            if i < es.len() - 1 {
                assert(spec_terminates(es.drop_last()[i]));
            }
        }
    }
}

} // verus!
