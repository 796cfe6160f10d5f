//! What it means to resolve an outcome against a stack of scenes.
use crate::protocol::{SceneOutcome, SceneSignal};
use crate::scene::Scene;
use vstd::prelude::*;

verus! {

/// How the resolution of an outcome ended.
#[derive(Debug, PartialEq, Eq)]
pub enum Resolution<L> {
    /// Every requested change was applied.
    Settled,
    /// A pop was asked of the base scene. The base scene stays, and the
    /// signal that nobody was left to receive is handed to the caller.
    Refused(SceneSignal<L>),
}

/// The stack `pre` without its top scene, and with `heir` in place of the
/// scene beneath it.
pub open spec fn succeeded<S>(pre: Seq<S>, heir: S) -> Seq<S>
    recommends
        pre.len() >= 2,
{
    pre.take(pre.len() - 2).push(heir)
}

/// Whether resolving `outcome` against the stack `pre` may leave the stack
/// `post` and end as `result` says.
///
/// A push puts the scene on top and ends the resolution. A pop on a stack of
/// two or more scenes removes the top one and hands the signal to the scene
/// beneath it, whose answer is resolved in turn against the shorter stack.
/// A pop on the base scene alone is refused and changes nothing.
pub open spec fn resolves<S: Scene>(
    pre: Seq<S>,
    outcome: SceneOutcome<S, S::Level>,
    post: Seq<S>,
    result: Resolution<S::Level>,
) -> bool
    decreases pre.len(),
{
    match outcome {
        SceneOutcome::Stay => post == pre && result == Resolution::<S::Level>::Settled,
        SceneOutcome::Push(scene) => post == pre.push(scene) && result == Resolution::<
            S::Level,
        >::Settled,
        SceneOutcome::Pop(signal) => if pre.len() < 2 {
            post == pre && result == Resolution::Refused(signal)
        } else {
            exists|heir: S, next: SceneOutcome<S, S::Level>|
                #[trigger] S::signal_handled(pre[pre.len() - 2], signal, heir, next) && resolves(
                    succeeded(pre, heir),
                    next,
                    post,
                    result,
                )
        },
    }
}

} // verus!
