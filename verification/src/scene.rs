//! The capability that every entry of the stack offers.
use crate::protocol::{SceneOutcome, SceneSignal};
use vstd::prelude::*;

verus! {

/// One interactive mode of the application.
///
/// Both operations run to completion and reach the stack through their
/// return value only. How a scene behaves is its own business: the two spec
/// relations give that behaviour a name, so that the contracts of the stack
/// can say which call was made on which scene. An implementation that does not
/// define them promises nothing, since both default to `true`.
pub trait Scene: Sized {
    /// The data that describes a chosen level.
    type Level;

    /// The snapshot of the input of one logical frame.
    type Input;

    /// The buffer of untextured triangles that a frame produces.
    type Triangles;

    /// The buffer of texture-mapped triangles that a frame may produce.
    type TrianglesUV;

    /// Whether a scene in state `pre` that is handed `signal` may end up in
    /// state `post` and answer `out`.
    open spec fn signal_handled(
        pre: Self,
        signal: SceneSignal<Self::Level>,
        post: Self,
        out: SceneOutcome<Self, Self::Level>,
    ) -> bool {
        true
    }

    /// Whether a scene in state `pre` that runs a frame on `inputs` may end up
    /// in state `post` and produce `out`: its outcome, the untextured geometry
    /// and, if there is any, the textured geometry.
    open spec fn frame_produced(
        pre: Self,
        inputs: Self::Input,
        post: Self,
        out: (SceneOutcome<Self, Self::Level>, Self::Triangles, Option<Self::TrianglesUV>),
    ) -> bool {
        true
    }

    /// Reacts to the signal of the scene that was just removed from above
    /// this one.
    fn handle_signal(&mut self, signal: SceneSignal<Self::Level>) -> (out: SceneOutcome<
        Self,
        Self::Level,
    >)
        ensures
            Self::signal_handled(*old(self), signal, *final(self), out),
    ;

    /// Runs one logical frame on the given input.
    fn frame(&mut self, inputs: Self::Input) -> (out: (
        SceneOutcome<Self, Self::Level>,
        Self::Triangles,
        Option<Self::TrianglesUV>,
    ))
        ensures
            Self::frame_produced(*old(self), inputs, *final(self), out),
    ;
}

} // verus!
