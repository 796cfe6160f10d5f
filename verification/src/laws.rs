//! What holds of every resolution and of every step of the driver.
use crate::driver::{opened, rested, resized, steps, Action, DriverState, Event, Phase, PlatformEvent};
use crate::protocol::{SceneOutcome, SceneSignal};
use crate::resolution::{resolves, succeeded, Resolution};
use crate::scene::Scene;
use vstd::prelude::*;

verus! {

/// A resolution never empties the stack: whatever was asked and whatever the
/// scenes answered, a stack that held a scene still holds one.
pub proof fn lemma_resolution_keeps_base<S: Scene>(
    pre: Seq<S>,
    outcome: SceneOutcome<S, S::Level>,
    post: Seq<S>,
    result: Resolution<S::Level>,
)
    requires
        pre.len() >= 1,
        resolves(pre, outcome, post, result),
    ensures
        post.len() >= 1,
    decreases pre.len(),
{
    if let SceneOutcome::Pop(signal) = outcome {
        if pre.len() >= 2 {
            let (heir, next) = lemma_pop_delivers_signal(pre, signal, post, result);
            lemma_resolution_keeps_base(succeeded(pre, heir), next, post, result);
        }
    }
}

/// A resolution is refused only when a pop reached the base scene, and then
/// the base scene is all that is left.
pub proof fn lemma_refusal_leaves_base_alone<S: Scene>(
    pre: Seq<S>,
    outcome: SceneOutcome<S, S::Level>,
    post: Seq<S>,
    result: Resolution<S::Level>,
)
    requires
        pre.len() >= 1,
        resolves(pre, outcome, post, result),
        result is Refused,
    ensures
        post.len() == 1,
        outcome is Pop,
    decreases pre.len(),
{
    if let SceneOutcome::Pop(signal) = outcome {
        if pre.len() >= 2 {
            let (heir, next) = lemma_pop_delivers_signal(pre, signal, post, result);
            lemma_refusal_leaves_base_alone(succeeded(pre, heir), next, post, result);
        }
    }
}

/// The shape of every resolution. Some number `kept` of scenes, at least the
/// base scene, stays on the stack. The scenes beneath the last of them are
/// untouched, since no signal reaches them. If no scene left, the last one is
/// untouched as well. On top of the `kept` scenes stands at most one new scene,
/// and only where the resolution settled.
pub proof fn lemma_resolution_shape<S: Scene>(
    pre: Seq<S>,
    outcome: SceneOutcome<S, S::Level>,
    post: Seq<S>,
    result: Resolution<S::Level>,
) -> (kept: int)
    requires
        pre.len() >= 1,
        resolves(pre, outcome, post, result),
    ensures
        1 <= kept <= pre.len(),
        kept <= post.len() <= kept + 1,
        post.take(kept - 1) == pre.take(kept - 1),
        kept == pre.len() ==> post.take(kept) == pre,
        post.len() == kept + 1 ==> result is Settled,
        outcome is Pop && pre.len() >= 2 ==> kept < pre.len(),
    decreases pre.len(),
{
    match outcome {
        SceneOutcome::Stay => {
            assert(post.take(pre.len() as int) =~= pre);
            pre.len() as int
        },
        SceneOutcome::Push(scene) => {
            assert(post.take(pre.len() as int) =~= pre);
            assert(post.take(pre.len() - 1) =~= pre.take(pre.len() - 1));
            pre.len() as int
        },
        SceneOutcome::Pop(signal) => {
            if pre.len() < 2 {
                assert(post.take(pre.len() as int) =~= pre);
                pre.len() as int
            } else {
                let (heir, next) = lemma_pop_delivers_signal(pre, signal, post, result);
                let shorter = succeeded(pre, heir);
                let kept = lemma_resolution_shape(shorter, next, post, result);
                assert(shorter.take(kept - 1) =~= pre.take(kept - 1));
                kept
            }
        },
    }
}

/// Signal delivery. A pop on a stack of two or more scenes hands its signal to
/// the scene that stood beneath the top, once, and that scene's answer is
/// what the rest of the resolution resolves. Where the answer asks for
/// nothing, the stack is the old one without its top and with the scene that
/// handled the signal as the active one.
pub proof fn lemma_pop_delivers_signal<S: Scene>(
    pre: Seq<S>,
    signal: SceneSignal<S::Level>,
    post: Seq<S>,
    result: Resolution<S::Level>,
) -> (answer: (S, SceneOutcome<S, S::Level>))
    requires
        pre.len() >= 2,
        resolves(pre, SceneOutcome::Pop(signal), post, result),
    ensures
        S::signal_handled(pre[pre.len() - 2], signal, answer.0, answer.1),
        resolves(succeeded(pre, answer.0), answer.1, post, result),
        answer.1 is Stay ==> post == succeeded(pre, answer.0) && result is Settled,
        answer.1 matches SceneOutcome::Push(scene) ==> post == succeeded(pre, answer.0).push(
            scene,
        ) && result is Settled,
{
    choose|heir: S, next: SceneOutcome<S, S::Level>|
        #[trigger] S::signal_handled(pre[pre.len() - 2], signal, heir, next) && resolves(
            succeeded(pre, heir),
            next,
            post,
            result,
        )
}

/// The converse of signal delivery: whatever the scene beneath the top may
/// answer to the signal, resolving that answer against the shorter stack is a
/// resolution of the pop.
pub proof fn lemma_answer_continues_pop<S: Scene>(
    pre: Seq<S>,
    signal: SceneSignal<S::Level>,
    heir: S,
    next: SceneOutcome<S, S::Level>,
    post: Seq<S>,
    result: Resolution<S::Level>,
)
    requires
        pre.len() >= 2,
        S::signal_handled(pre[pre.len() - 2], signal, heir, next),
        resolves(succeeded(pre, heir), next, post, result),
    ensures
        resolves(pre, SceneOutcome::Pop(signal), post, result),
{
}

/// Cascade resolution. Where the scene that is handed the signal of a pop
/// answers with a pop of its own, that scene leaves too and its signal goes
/// to the next scene down, within the same resolution: the resolution of the
/// first pop is the resolution of the second scene's answer against the stack
/// that is two scenes shorter.
pub proof fn lemma_cascade_resolves_within<S: Scene>(
    pre: Seq<S>,
    first: SceneSignal<S::Level>,
    leaving: S,
    second: SceneSignal<S::Level>,
    heir: S,
    next: SceneOutcome<S, S::Level>,
    post: Seq<S>,
    result: Resolution<S::Level>,
)
    requires
        pre.len() >= 3,
        S::signal_handled(pre[pre.len() - 2], first, leaving, SceneOutcome::Pop(second)),
        S::signal_handled(pre[pre.len() - 3], second, heir, next),
        resolves(pre.take(pre.len() - 3).push(heir), next, post, result),
    ensures
        resolves(pre, SceneOutcome::Pop(first), post, result),
{
    let shorter = succeeded(pre, leaving);
    assert(shorter[shorter.len() - 2] == pre[pre.len() - 3]);
    assert(succeeded(shorter, heir) =~= pre.take(pre.len() - 3).push(heir));
    lemma_answer_continues_pop(shorter, second, heir, next, post, result);
    lemma_answer_continues_pop(pre, first, leaving, SceneOutcome::Pop(second), post, result);
}

/// Push isolation, in the stack. A push puts the scene on top as it was
/// given, which makes it the active scene, and leaves every scene beneath it
/// as it was. No signal is delivered, to it or to any other scene.
pub proof fn lemma_push_isolation<S: Scene>(
    pre: Seq<S>,
    scene: S,
    post: Seq<S>,
    result: Resolution<S::Level>,
)
    requires
        resolves(pre, SceneOutcome::Push(scene), post, result),
    ensures
        post == pre.push(scene),
        post.last() == scene,
        post.drop_last() == pre,
        result is Settled,
{
    assert(pre.push(scene).drop_last() =~= pre);
}

/// Push isolation, in the driver. The frame that follows a push runs on the
/// pushed scene and on no other.
pub proof fn lemma_pushed_scene_runs_next_frame<S: Scene>(
    beneath: Seq<S>,
    scene: S,
    pre: DriverState<S>,
    inputs: S::Input,
    post: DriverState<S>,
    action: Action<S::Triangles, S::TrianglesUV, S::Level>,
)
    requires
        pre.stack == beneath.push(scene),
        pre.phase == Phase::<S::Input, SceneOutcome<S, S::Level>>::Clearing(inputs),
        steps(pre, Event::Cleared, post, action),
    ensures
        post.phase matches Phase::Presenting(outcome) && (action matches Action::Render {
            primary,
            secondary,
        } && S::frame_produced(scene, inputs, post.stack.last(), (outcome, primary, secondary))),
        post.stack.drop_last() == beneath,
{
    assert(post.stack.drop_last() =~= beneath);
}

/// Frame gating, in one step. Where the aggregator completed no input, no
/// scene runs and nothing is presented: the stack is as it was, and the host is
/// asked neither to clear nor to render, nor told of a resolution. At its
/// turn, such an answer ends the tick.
pub proof fn lemma_no_input_no_frame<S: Scene>(
    pre: DriverState<S>,
    post: DriverState<S>,
    action: Action<S::Triangles, S::TrianglesUV, S::Level>,
)
    requires
        steps(pre, Event::Input(None), post, action),
    ensures
        post.stack == pre.stack,
        post.xres == pre.xres,
        post.yres == pre.yres,
        !(action is Clear),
        !(action is Render),
        !(action is Finish),
        pre.phase is Aggregating ==> post == rested(pre) && action is Wait,
        !(pre.phase is Aggregating) ==> post == pre && action is Ignore,
{
}

/// Frame gating, over a whole tick. A tick whose event the aggregator saw
/// without completing an input leaves the application as it was, and asks the
/// host for nothing but the aggregation.
pub proof fn lemma_tick_without_input<S: Scene>(
    start: DriverState<S>,
    platform: PlatformEvent,
    middle: DriverState<S>,
    first: Action<S::Triangles, S::TrianglesUV, S::Level>,
    end: DriverState<S>,
    second: Action<S::Triangles, S::TrianglesUV, S::Level>,
)
    requires
        start.phase is Idle,
        platform.forwarded(),
        steps(start, Event::Platform(platform), middle, first),
        steps(middle, Event::Input(None), end, second),
    ensures
        first is Aggregate,
        middle == opened(start),
        second is Wait,
        end == start,
{
}

/// A resize is the driver's own business. Between two ticks it is recorded
/// and handed to the host, and the tick is over: the event does not go to the
/// aggregator, no scene runs, nothing is presented and the stack is as it
/// was. In any other phase it is out of turn and changes nothing.
pub proof fn lemma_resize_handled_alone<S: Scene>(
    pre: DriverState<S>,
    width: u32,
    height: u32,
    post: DriverState<S>,
    action: Action<S::Triangles, S::TrianglesUV, S::Level>,
)
    requires
        steps(pre, Event::Platform(PlatformEvent::Resized { width, height }), post, action),
    ensures
        post.stack == pre.stack,
        post.phase == pre.phase,
        pre.phase is Idle ==> post == resized(pre, width, height) && action == (Action::<
            S::Triangles,
            S::TrianglesUV,
            S::Level,
        >::Resize { width, height }),
        !(pre.phase is Idle) ==> post == pre && action is Ignore,
{
}

/// A request to close is the driver's own business. Between two ticks it is
/// answered with the exit, and the tick is over: the event does not go to the
/// aggregator, no scene runs, nothing is presented and the application is as
/// it was. In any other phase it is out of turn and changes nothing.
pub proof fn lemma_close_handled_alone<S: Scene>(
    pre: DriverState<S>,
    post: DriverState<S>,
    action: Action<S::Triangles, S::TrianglesUV, S::Level>,
)
    requires
        steps(pre, Event::Platform(PlatformEvent::CloseRequested), post, action),
    ensures
        post == pre,
        pre.phase is Idle ==> action is Exit,
        !(pre.phase is Idle) ==> action is Ignore,
{
}

/// Only the events that the driver does not deal with itself reach the
/// aggregator, and only between two ticks: the host is asked to aggregate
/// exactly when a platform event that is neither a resize nor a request to
/// close arrives at an idle driver. The host is asked to resize exactly on a
/// resize, and to exit exactly on a request to close, that arrives there.
pub proof fn lemma_aggregation_only_of_other_events<S: Scene>(
    pre: DriverState<S>,
    event: Event<S::Input>,
    post: DriverState<S>,
    action: Action<S::Triangles, S::TrianglesUV, S::Level>,
)
    requires
        steps(pre, event, post, action),
    ensures
        action is Aggregate <==> pre.phase is Idle && (event matches Event::Platform(platform)
            && platform.forwarded()),
        action is Resize <==> pre.phase is Idle && (event matches Event::Platform(platform)
            && platform is Resized),
        action is Exit <==> pre.phase is Idle && (event matches Event::Platform(platform)
            && platform is CloseRequested),
        action is Exit ==> (event matches Event::Platform(platform) && platform.ends_loop()),
        post.phase is Aggregating && !(pre.phase is Aggregating) ==> action is Aggregate,
{
}

/// The order of a tick with a frame. From a driver between two ticks, the
/// four reports of such a tick ask for the aggregation, the clearing and the
/// rendering, in this order, and end with the resolution. The active scene
/// runs one frame on the completed input, the host is handed the geometry of
/// that very frame, and the outcome of that frame is resolved against the
/// stack after the presentation, not before.
pub proof fn lemma_tick_with_frame<S: Scene>(
    start: DriverState<S>,
    platform: PlatformEvent,
    inputs: S::Input,
    s1: DriverState<S>,
    a1: Action<S::Triangles, S::TrianglesUV, S::Level>,
    s2: DriverState<S>,
    a2: Action<S::Triangles, S::TrianglesUV, S::Level>,
    s3: DriverState<S>,
    a3: Action<S::Triangles, S::TrianglesUV, S::Level>,
    end: DriverState<S>,
    a4: Action<S::Triangles, S::TrianglesUV, S::Level>,
)
    requires
        start.phase is Idle,
        start.stack.len() >= 1,
        platform.forwarded(),
        steps(start, Event::Platform(platform), s1, a1),
        steps(s1, Event::Input(Some(inputs)), s2, a2),
        steps(s2, Event::Cleared, s3, a3),
        steps(s3, Event::Presented, end, a4),
    ensures
        a1 is Aggregate,
        a2 is Clear,
        s2.stack == start.stack,
        s3.phase matches Phase::Presenting(outcome) && (a3 matches Action::Render {
            primary,
            secondary,
        } && (a4 matches Action::Finish(result) && {
            &&& S::frame_produced(
                start.stack.last(),
                inputs,
                s3.stack.last(),
                (outcome, primary, secondary),
            )
            &&& s3.stack == start.stack.update(start.stack.len() - 1, s3.stack.last())
            &&& resolves(s3.stack, outcome, end.stack, result)
        })),
        end.phase is Idle,
        end.stack.len() >= 1,
        end.xres == start.xres,
        end.yres == start.yres,
{
    lemma_step_keeps_base(s3, Event::Presented, end, a4);
}

/// A frame runs at its turn only: the host is asked to render only when it
/// reported the cleared frame buffer to a driver that was waiting for that
/// report. While an outcome waits for its presentation, no further frame
/// runs.
pub proof fn lemma_frame_only_at_its_turn<S: Scene>(
    pre: DriverState<S>,
    event: Event<S::Input>,
    post: DriverState<S>,
    action: Action<S::Triangles, S::TrianglesUV, S::Level>,
)
    requires
        steps(pre, event, post, action),
        action is Render || post.phase is Presenting && !(pre.phase is Presenting),
    ensures
        pre.phase is Clearing,
        event is Cleared,
        action is Render,
        post.phase is Presenting,
{
}

/// A kept outcome is resolved by the report of its presentation and by
/// nothing else: until then it stays as it is, and so does the stack.
pub proof fn lemma_outcome_waits_for_presentation<S: Scene>(
    pre: DriverState<S>,
    event: Event<S::Input>,
    post: DriverState<S>,
    action: Action<S::Triangles, S::TrianglesUV, S::Level>,
)
    requires
        pre.phase is Presenting,
        steps(pre, event, post, action),
    ensures
        event is Presented ==> post.phase is Idle && (action matches Action::Finish(result)
            && resolves(pre.stack, pre.phase->Presenting_0, post.stack, result)),
        !(event is Presented) ==> post == pre && action is Ignore,
{
}

/// No step of the driver empties the stack.
pub proof fn lemma_step_keeps_base<S: Scene>(
    pre: DriverState<S>,
    event: Event<S::Input>,
    post: DriverState<S>,
    action: Action<S::Triangles, S::TrianglesUV, S::Level>,
)
    requires
        pre.stack.len() >= 1,
        steps(pre, event, post, action),
    ensures
        post.stack.len() >= 1,
{
    if let Phase::Presenting(outcome) = pre.phase {
        if let Action::Finish(result) = action {
            if event is Presented {
                lemma_resolution_keeps_base(pre.stack, outcome, post.stack, result);
            }
        }
    }
}

/// Whether the scenes of type `S` answer a signal in one way only: the state
/// of a scene and the signal decide the state after it and the answer.
pub open spec fn signals_decided<S: Scene>() -> bool {
    forall|
        pre: S,
        signal: SceneSignal<S::Level>,
        post1: S,
        out1: SceneOutcome<S, S::Level>,
        post2: S,
        out2: SceneOutcome<S, S::Level>,
    |
        #[trigger] S::signal_handled(pre, signal, post1, out1) && #[trigger] S::signal_handled(
            pre,
            signal,
            post2,
            out2,
        ) ==> post1 == post2 && out1 == out2
}

/// Whether the scenes of type `S` run a frame in one way only: the state of a
/// scene and the input decide the state after it, the outcome and the
/// geometry.
pub open spec fn frames_decided<S: Scene>() -> bool {
    forall|
        pre: S,
        inputs: S::Input,
        post1: S,
        out1: (SceneOutcome<S, S::Level>, S::Triangles, Option<S::TrianglesUV>),
        post2: S,
        out2: (SceneOutcome<S, S::Level>, S::Triangles, Option<S::TrianglesUV>),
    |
        #[trigger] S::frame_produced(pre, inputs, post1, out1) && #[trigger] S::frame_produced(
            pre,
            inputs,
            post2,
            out2,
        ) ==> post1 == post2 && out1 == out2
}

/// A resolution leaves nothing open of its own. Where the scenes answer each
/// signal in one way only, the stack and the outcome decide the stack after
/// the resolution and how it ended.
pub proof fn lemma_resolution_is_decided<S: Scene>(
    pre: Seq<S>,
    outcome: SceneOutcome<S, S::Level>,
    post1: Seq<S>,
    result1: Resolution<S::Level>,
    post2: Seq<S>,
    result2: Resolution<S::Level>,
)
    requires
        signals_decided::<S>(),
        resolves(pre, outcome, post1, result1),
        resolves(pre, outcome, post2, result2),
    ensures
        post1 == post2,
        result1 == result2,
    decreases pre.len(),
{
    if let SceneOutcome::Pop(signal) = outcome {
        if pre.len() >= 2 {
            let (heir1, next1) = lemma_pop_delivers_signal(pre, signal, post1, result1);
            let (heir2, next2) = lemma_pop_delivers_signal(pre, signal, post2, result2);
            lemma_resolution_is_decided(succeeded(pre, heir1), next1, post1, result1, post2, result2);
        }
    }
}

/// A step of the driver leaves nothing open of its own. Where the scenes
/// answer each signal and run each frame in one way only, the state and the
/// report decide the state after the step and what is asked of the host.
pub proof fn lemma_step_is_decided<S: Scene>(
    pre: DriverState<S>,
    event: Event<S::Input>,
    post1: DriverState<S>,
    action1: Action<S::Triangles, S::TrianglesUV, S::Level>,
    post2: DriverState<S>,
    action2: Action<S::Triangles, S::TrianglesUV, S::Level>,
)
    requires
        signals_decided::<S>(),
        frames_decided::<S>(),
        steps(pre, event, post1, action1),
        steps(pre, event, post2, action2),
    ensures
        post1 == post2,
        action1 == action2,
{
    match (pre.phase, event) {
        (Phase::Clearing(inputs), Event::Cleared) => {
            assert(post1.stack =~= post2.stack);
        },
        (Phase::Presenting(outcome), Event::Presented) => {
            lemma_resolution_is_decided(
                pre.stack,
                outcome,
                post1.stack,
                action1->Finish_0,
                post2.stack,
                action2->Finish_0,
            );
        },
        _ => {},
    }
}

} // verus!
