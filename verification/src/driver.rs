//! One tick of the event loop, as a machine without input or output.
//!
//! The host owns the window, the input aggregator and the two render
//! pipelines. It reports what happened as an [`Event`] and carries out the
//! [`Action`] that it gets back. A resize of the window and a request to
//! close it are dealt with at once and end the tick: the input aggregator
//! never sees them. Every other platform event is aggregated, and where it
//! completes the input of a frame the tick runs through the phases in order:
//! the frame buffer is cleared, the active scene runs one frame, the host
//! presents its geometry, and only then is the outcome of the frame resolved
//! against the stack.
use crate::protocol::SceneOutcome;
use crate::resolution::{resolves, Resolution};
use crate::scene::Scene;
use vstd::prelude::*;

verus! {

/// What the platform reports, as far as the driver reads it.
#[derive(Clone, Copy, Debug, PartialEq, Eq)]
pub enum PlatformEvent {
    /// The window now has this size, in physical pixels.
    Resized { width: u32, height: u32 },
    /// The user asked to close the window.
    CloseRequested,
    /// The event loop is shutting down.
    LoopDestroyed,
    /// Any other event. It matters to the input aggregator alone.
    Other,
}

impl PlatformEvent {
    /// Whether the event goes to the input aggregator. A resize and a request
    /// to close do not: the driver deals with them itself.
    pub open spec fn forwarded(self) -> bool {
        !(self is Resized) && !(self is CloseRequested)
    }

    /// Whether the event loop has to exit once the tick of this event is
    /// over.
    pub open spec fn ends_loop(self) -> bool {
        self is CloseRequested || self is LoopDestroyed
    }

    /// Tells whether the event loop has to exit once the tick of this event
    /// is over: on a request to close the window and on the shutdown of the
    /// loop.
    pub fn requests_exit(&self) -> (exit: bool)
        ensures
            exit == self.ends_loop(),
    {
        match self {
            PlatformEvent::CloseRequested => true,
            PlatformEvent::LoopDestroyed => true,
            _ => false,
        }
    }
}

/// What the host reports to the driver.
///
/// `I` is the snapshot of the input of one logical frame.
#[derive(Debug, PartialEq, Eq)]
pub enum Event<I> {
    /// The platform delivered an event. This opens a tick.
    Platform(PlatformEvent),
    /// The input aggregator has seen the event of this tick. It completed a
    /// frame's input, or it did not.
    Input(Option<I>),
    /// The frame buffer was cleared.
    Cleared,
    /// The geometry of this tick was drawn and the buffers were swapped.
    Presented,
}

/// What the driver asks of the host.
///
/// `T` and `U` are the buffers of untextured and of textured triangles, and
/// `L` is the level data.
#[derive(Debug, PartialEq, Eq)]
pub enum Action<T, U, L> {
    /// The tick is over. Give the rendering surface and the viewport this
    /// size, in physical pixels. The event is not for the input aggregator.
    Resize { width: u32, height: u32 },
    /// The tick is over. The user asked to close the window: leave the event
    /// loop. The event is not for the input aggregator.
    Exit,
    /// Hand the event of this tick to the input aggregator and report its
    /// answer as [`Event::Input`].
    Aggregate,
    /// Clear the frame buffer and report [`Event::Cleared`].
    Clear,
    /// Draw `primary` with the plain pipeline and `secondary`, if there is
    /// one, with the textured pipeline, swap the buffers and report
    /// [`Event::Presented`].
    Render { primary: T, secondary: Option<U> },
    /// The tick is over. No frame was due: no scene ran and there is nothing
    /// to present.
    Wait,
    /// The tick is over. The outcome of its frame was resolved, and ended as
    /// the resolution says.
    Finish(Resolution<L>),
    /// The event does not belong to the current phase. Nothing changed.
    Ignore,
}

/// Where the driver stands within a tick.
///
/// `I` is the input of a frame and `O` its outcome.
pub enum Phase<I, O> {
    /// Between two ticks.
    Idle,
    /// The event of this tick is with the input aggregator.
    Aggregating,
    /// A frame is due on this input. The host is clearing the frame buffer.
    Clearing(I),
    /// The active scene ran its frame. The host is presenting the geometry,
    /// and the outcome waits to be resolved.
    Presenting(O),
}

/// The state of an application, as the contracts see it.
pub struct DriverState<S: Scene> {
    /// The scenes, the base scene first and the active scene last.
    pub stack: Seq<S>,
    /// Where the driver stands within a tick.
    pub phase: Phase<S::Input, SceneOutcome<S, S::Level>>,
    /// The width of the rendering surface, in physical pixels.
    pub xres: u32,
    /// The height of the rendering surface, in physical pixels.
    pub yres: u32,
}

/// The state between two ticks whose surface has the given size, and which
/// keeps the stack of `pre`.
pub open spec fn resized<S: Scene>(pre: DriverState<S>, width: u32, height: u32) -> DriverState<
    S,
> {
    DriverState { stack: pre.stack, phase: Phase::Idle, xres: width, yres: height }
}

/// The state whose platform event is with the input aggregator, and which
/// keeps the stack and the size of the surface of `pre`.
pub open spec fn opened<S: Scene>(pre: DriverState<S>) -> DriverState<S> {
    DriverState { stack: pre.stack, phase: Phase::Aggregating, xres: pre.xres, yres: pre.yres }
}

/// The state between two ticks that keeps the stack and the size of the
/// surface of `pre`.
pub open spec fn rested<S: Scene>(pre: DriverState<S>) -> DriverState<S> {
    DriverState { stack: pre.stack, phase: Phase::Idle, xres: pre.xres, yres: pre.yres }
}

/// The state that waits for the frame buffer to be cleared before a frame runs
/// on `inputs`, and keeps the stack and the size of the surface of `pre`.
pub open spec fn due<S: Scene>(pre: DriverState<S>, inputs: S::Input) -> DriverState<S> {
    DriverState {
        stack: pre.stack,
        phase: Phase::Clearing(inputs),
        xres: pre.xres,
        yres: pre.yres,
    }
}

/// Whether the driver in state `pre` that is told `event` may go to `post`
/// and ask `action` of the host.
///
/// Between two ticks a platform event opens one. A resize is recorded and
/// handed to the host, a request to close is answered with the exit, and
/// either ends the tick at once, with the stack as it was. Any other platform
/// event is for the aggregator. While aggregating, an answer without input
/// ends the tick at once, and an answer with input asks for a cleared frame
/// buffer. Once that is cleared, the active scene runs one frame and nothing
/// else happens to the stack: the geometry goes to the host and the outcome
/// is kept. While presenting, the report of the presentation resolves the
/// kept outcome and ends the tick. Any other pairing is out of turn and
/// changes nothing.
pub open spec fn steps<S: Scene>(
    pre: DriverState<S>,
    event: Event<S::Input>,
    post: DriverState<S>,
    action: Action<S::Triangles, S::TrianglesUV, S::Level>,
) -> bool {
    match (pre.phase, event) {
        (Phase::Idle, Event::Platform(PlatformEvent::Resized { width, height })) => {
            &&& post == resized(pre, width, height)
            &&& action == Action::<S::Triangles, S::TrianglesUV, S::Level>::Resize { width, height }
        },
        (Phase::Idle, Event::Platform(PlatformEvent::CloseRequested)) => {
            &&& post == pre
            &&& action == Action::<S::Triangles, S::TrianglesUV, S::Level>::Exit
        },
        (Phase::Idle, Event::Platform(_)) => {
            &&& post == opened(pre)
            &&& action == Action::<S::Triangles, S::TrianglesUV, S::Level>::Aggregate
        },
        (Phase::Aggregating, Event::Input(None)) => {
            &&& post == rested(pre)
            &&& action == Action::<S::Triangles, S::TrianglesUV, S::Level>::Wait
        },
        (Phase::Aggregating, Event::Input(Some(inputs))) => {
            &&& post == due(pre, inputs)
            &&& action == Action::<S::Triangles, S::TrianglesUV, S::Level>::Clear
        },
        (Phase::Clearing(inputs), Event::Cleared) => {
            &&& post.phase matches Phase::Presenting(outcome)
            &&& action matches Action::Render { primary, secondary }
            &&& pre.stack.len() >= 1
            &&& post.stack == pre.stack.update(pre.stack.len() - 1, post.stack.last())
            &&& S::frame_produced(
                pre.stack.last(),
                inputs,
                post.stack.last(),
                (outcome, primary, secondary),
            )
            &&& post.xres == pre.xres
            &&& post.yres == pre.yres
        },
        (Phase::Presenting(outcome), Event::Presented) => {
            &&& action matches Action::Finish(result)
            &&& resolves(pre.stack, outcome, post.stack, result)
            &&& post.phase is Idle
            &&& post.xres == pre.xres
            &&& post.yres == pre.yres
        },
        _ => {
            &&& post == pre
            &&& action == Action::<S::Triangles, S::TrianglesUV, S::Level>::Ignore
        },
    }
}

} // verus!
