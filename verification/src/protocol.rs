//! The vocabulary in which scenes ask for changes of the stack.
use vstd::prelude::*;

verus! {

/// What a departing scene hands to the scene beneath it.
///
/// `L` is the data that describes a chosen level.
#[derive(Debug, PartialEq, Eq)]
pub enum SceneSignal<L> {
    /// The scene left and has nothing to say.
    JustPop,
    /// The scene left after a level was chosen.
    LevelChoice(L),
}

/// What a scene asks of the stack after a frame or after a signal.
///
/// `S` is the type of the scenes and `L` that of the level data.
#[derive(Debug, PartialEq, Eq)]
pub enum SceneOutcome<S, L> {
    /// Put this scene on top. The stack takes ownership of it.
    Push(S),
    /// Remove the top scene and hand the signal to the one beneath it.
    Pop(SceneSignal<L>),
    /// Leave the stack as it is.
    Stay,
}

} // verus!
