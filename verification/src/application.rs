//! The application: the stack of scenes and the driver of its ticks.
use crate::driver::{steps, Action, DriverState, Event, Phase, PlatformEvent};
use crate::protocol::SceneOutcome;
use crate::resolution::{resolves, succeeded, Resolution};
use crate::scene::Scene;
use vstd::prelude::*;

verus! {

/// The width that the rendering surface has at the start, in physical pixels.
pub const DEFAULT_XRES: u32 = 1600;

/// The height that the rendering surface has at the start, in physical
/// pixels.
pub const DEFAULT_YRES: u32 = 900;

/// The stack of scenes of one application, the size of its rendering surface
/// and the phase of its current tick.
///
/// The stack always holds the base scene: it is never empty.
pub struct Application<S: Scene> {
    xres: u32,
    yres: u32,
    scene_stack: Vec<S>,
    phase: Phase<S::Input, SceneOutcome<S, S::Level>>,
}

impl<S: Scene> View for Application<S> {
    type V = DriverState<S>;

    closed spec fn view(&self) -> DriverState<S> {
        DriverState {
            stack: self.scene_stack@,
            phase: self.phase,
            xres: self.xres,
            yres: self.yres,
        }
    }
}

impl<S: Scene> Application<S> {
    /// Whether the application is well formed: its stack holds at least the
    /// base scene.
    pub open spec fn wf(&self) -> bool {
        self@.stack.len() >= 1
    }

    /// An application whose only scene is `base`, between two ticks, with a
    /// rendering surface of the default size.
    pub fn new(base: S) -> (app: Self)
        ensures
            app.wf(),
            app@.stack == seq![base],
            app@.phase is Idle,
            app@.xres == DEFAULT_XRES,
            app@.yres == DEFAULT_YRES,
    {
        let mut scene_stack: Vec<S> = Vec::new();
        scene_stack.push(base);
        Application { xres: DEFAULT_XRES, yres: DEFAULT_YRES, scene_stack, phase: Phase::Idle }
    }

    /// Resolves `so` against the stack, together with every outcome that the
    /// signals delivered on the way bring forth.
    ///
    /// The cascade is walked in a loop, so its length costs no call depth.
    /// The phase of the tick and the size of the surface are not touched.
    pub fn handle_scene_outcome(&mut self, so: SceneOutcome<S, S::Level>) -> (result: Resolution<
        S::Level,
    >)
        requires
            old(self).wf(),
        ensures
            final(self).wf(),
            resolves(old(self)@.stack, so, final(self)@.stack, result),
            final(self)@.phase == old(self)@.phase,
            final(self)@.xres == old(self)@.xres,
            final(self)@.yres == old(self)@.yres,
    {
        let mut pending = so;
        loop
            invariant
                self.scene_stack@.len() >= 1,
                self.phase == old(self).phase,
                self.xres == old(self).xres,
                self.yres == old(self).yres,
                forall|post: Seq<S>, result: Resolution<S::Level>| #[trigger]
                    resolves(self.scene_stack@, pending, post, result) ==> resolves(
                        old(self).scene_stack@,
                        so,
                        post,
                        result,
                    ),
            decreases self.scene_stack@.len(),
        {
            let ghost before = self.scene_stack@;
            let ghost asked = pending;
            match pending {
                SceneOutcome::Stay => {
                    assert(resolves(before, asked, self.scene_stack@, Resolution::Settled));
                    return Resolution::Settled;
                },
                SceneOutcome::Push(scene) => {
                    self.scene_stack.push(scene);
                    assert(resolves(before, asked, self.scene_stack@, Resolution::Settled));
                    return Resolution::Settled;
                },
                SceneOutcome::Pop(signal) => {
                    if self.scene_stack.len() < 2 {
                        assert(resolves(
                            before,
                            asked,
                            self.scene_stack@,
                            Resolution::Refused(signal),
                        ));
                        return Resolution::Refused(signal);
                    }
                    self.scene_stack.pop();
                    let top: usize = self.scene_stack.len() - 1;
                    pending = self.scene_stack[top].handle_signal(signal);
                    proof {
                        // The scene beneath the old top handled the signal. What
                        // is left to resolve is its answer, against the shorter
                        // stack, and each such resolution is one of the pop.
                        let heir = self.scene_stack@.last();
                        assert(self.scene_stack@ =~= succeeded(before, heir));
                        assert forall|post: Seq<S>, result: Resolution<S::Level>| #[trigger]
                            resolves(self.scene_stack@, pending, post, result) implies resolves(
                            before,
                            asked,
                            post,
                            result,
                        ) by {
                            assert(S::signal_handled(before[before.len() - 2], signal, heir, pending));
                        }
                    }
                },
            }
        }
    }

    /// Takes the driver one step further in its tick, as [`steps`] says.
    ///
    /// A resize and a request to close end their tick at once and reach
    /// neither the aggregator nor a scene. A scene runs only here and in the
    /// resolution of an outcome: its frame once the frame buffer was cleared
    /// for a completed input, and its handling of a signal once the
    /// presentation of that frame was reported.
    pub fn handle_event(&mut self, event: Event<S::Input>) -> (action: Action<
        S::Triangles,
        S::TrianglesUV,
        S::Level,
    >)
        requires
            old(self).wf(),
        ensures
            final(self).wf(),
            steps(old(self)@, event, final(self)@, action),
    {
        let mut phase = Phase::Idle;
        std::mem::swap(&mut self.phase, &mut phase);
        match (phase, event) {
            (Phase::Idle, Event::Platform(PlatformEvent::Resized { width, height })) => {
                self.xres = width;
                self.yres = height;
                Action::Resize { width, height }
            },
            (Phase::Idle, Event::Platform(PlatformEvent::CloseRequested)) => Action::Exit,
            (Phase::Idle, Event::Platform(_)) => {
                self.phase = Phase::Aggregating;
                Action::Aggregate
            },
            (Phase::Aggregating, Event::Input(None)) => Action::Wait,
            (Phase::Aggregating, Event::Input(Some(inputs))) => {
                self.phase = Phase::Clearing(inputs);
                Action::Clear
            },
            (Phase::Clearing(inputs), Event::Cleared) => {
                let top: usize = self.scene_stack.len() - 1;
                let (outcome, primary, secondary) = self.scene_stack[top].frame(inputs);
                self.phase = Phase::Presenting(outcome);
                assert(self@.stack =~= old(self)@.stack.update(top as int, self@.stack.last()));
                Action::Render { primary, secondary }
            },
            (Phase::Presenting(outcome), Event::Presented) => {
                let result = self.handle_scene_outcome(outcome);
                Action::Finish(result)
            },
            (phase, _) => {
                self.phase = phase;
                Action::Ignore
            },
        }
    }

    /// The width of the rendering surface, in physical pixels.
    pub fn xres(&self) -> (width: u32)
        ensures
            width == self@.xres,
    {
        self.xres
    }

    /// The height of the rendering surface, in physical pixels.
    pub fn yres(&self) -> (height: u32)
        ensures
            height == self@.yres,
    {
        self.yres
    }

    /// The scenes, the base scene first and the active scene last.
    pub fn scenes(&self) -> (scenes: &Vec<S>)
        ensures
            scenes@ == self@.stack,
    {
        &self.scene_stack
    }

    /// The active scene: the one on top of the stack.
    pub fn active(&self) -> (scene: &S)
        requires
            self.wf(),
        ensures
            *scene == self@.stack.last(),
    {
        &self.scene_stack[self.scene_stack.len() - 1]
    }
}

} // verus!
