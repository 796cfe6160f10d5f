use scene_stack::{Application, Resolution, Scene, SceneOutcome, SceneSignal};
use std::cell::RefCell;
use std::rc::Rc;

type Log = Rc<RefCell<Vec<String>>>;

/// What a probe answers when it is handed a signal.
#[derive(Clone, Copy, Debug, PartialEq)]
enum Answer {
    Stay,
    PopAgain,
    PopWithLevel(u32),
    PushChild(&'static str),
}

/// A scene that writes every call into a shared log.
#[derive(Debug)]
struct Probe {
    name: &'static str,
    answer: Answer,
    log: Log,
}

impl Probe {
    fn new(name: &'static str, answer: Answer, log: &Log) -> Probe {
        Probe { name, answer, log: Rc::clone(log) }
    }
}

impl PartialEq for Probe {
    fn eq(&self, other: &Probe) -> bool {
        self.name == other.name
    }
}

impl Scene for Probe {
    type Level = u32;
    type Input = u8;
    type Triangles = Vec<f32>;
    type TrianglesUV = Vec<f32>;

    fn handle_signal(&mut self, signal: SceneSignal<u32>) -> SceneOutcome<Probe, u32> {
        self.log.borrow_mut().push(format!("{}.handle_signal({:?})", self.name, signal));
        match self.answer {
            Answer::Stay => SceneOutcome::Stay,
            Answer::PopAgain => SceneOutcome::Pop(SceneSignal::JustPop),
            Answer::PopWithLevel(n) => SceneOutcome::Pop(SceneSignal::LevelChoice(n)),
            Answer::PushChild(name) => SceneOutcome::Push(Probe::new(name, Answer::PopAgain, &self.log)),
        }
    }

    fn frame(&mut self, inputs: u8) -> (SceneOutcome<Probe, u32>, Vec<f32>, Option<Vec<f32>>) {
        self.log.borrow_mut().push(format!("{}.frame({})", self.name, inputs));
        (SceneOutcome::Stay, Vec::new(), None)
    }
}

fn names(app: &Application<Probe>) -> Vec<&'static str> {
    app.scenes().iter().map(|scene| scene.name).collect()
}

fn stack_of(log: &Log, scenes: &[(&'static str, Answer)]) -> Application<Probe> {
    let mut app = Application::new(Probe::new(scenes[0].0, scenes[0].1, log));
    for (name, answer) in &scenes[1..] {
        let result = app.handle_scene_outcome(SceneOutcome::Push(Probe::new(name, *answer, log)));
        assert_eq!(result, Resolution::Settled);
    }
    log.borrow_mut().clear();
    app
}

#[test]
fn new_application_holds_the_base_scene_alone() {
    let log = Log::default();
    let app = Application::new(Probe::new("base", Answer::Stay, &log));
    assert_eq!(names(&app), vec!["base"]);
    assert_eq!(app.active().name, "base");
    assert!(log.borrow().is_empty());
}

#[test]
fn stay_changes_nothing() {
    let log = Log::default();
    let mut app = stack_of(&log, &[("base", Answer::Stay), ("menu", Answer::Stay)]);
    let result = app.handle_scene_outcome(SceneOutcome::Stay);
    assert_eq!(result, Resolution::Settled);
    assert_eq!(names(&app), vec!["base", "menu"]);
    assert!(log.borrow().is_empty());
}

#[test]
fn push_makes_the_scene_active_and_signals_nobody() {
    let log = Log::default();
    let mut app = stack_of(&log, &[("base", Answer::PopAgain)]);
    let pushed = Probe::new("menu", Answer::PopAgain, &log);
    let result = app.handle_scene_outcome(SceneOutcome::Push(pushed));
    assert_eq!(result, Resolution::Settled);
    assert_eq!(names(&app), vec!["base", "menu"]);
    assert_eq!(app.active().name, "menu");
    assert!(log.borrow().is_empty());
}

#[test]
fn pop_hands_the_signal_to_the_new_top_once() {
    let log = Log::default();
    let mut app = stack_of(&log, &[("base", Answer::Stay), ("editor", Answer::Stay), ("menu", Answer::Stay)]);
    let result = app.handle_scene_outcome(SceneOutcome::Pop(SceneSignal::LevelChoice(7)));
    assert_eq!(result, Resolution::Settled);
    assert_eq!(names(&app), vec!["base", "editor"]);
    assert_eq!(*log.borrow(), vec!["editor.handle_signal(LevelChoice(7))".to_string()]);
}

#[test]
fn pop_on_the_base_scene_is_refused() {
    let log = Log::default();
    let mut app = stack_of(&log, &[("base", Answer::Stay)]);
    let result = app.handle_scene_outcome(SceneOutcome::Pop(SceneSignal::LevelChoice(4)));
    assert_eq!(result, Resolution::Refused(SceneSignal::LevelChoice(4)));
    assert_eq!(names(&app), vec!["base"]);
    assert!(log.borrow().is_empty());
}

#[test]
fn refused_pop_can_be_asked_again() {
    let log = Log::default();
    let mut app = stack_of(&log, &[("base", Answer::Stay)]);
    for _ in 0..3 {
        let result = app.handle_scene_outcome(SceneOutcome::Pop(SceneSignal::JustPop));
        assert_eq!(result, Resolution::Refused(SceneSignal::JustPop));
        assert_eq!(names(&app), vec!["base"]);
    }
    assert!(log.borrow().is_empty());
}

#[test]
fn cascade_of_pops_is_resolved_within_one_call() {
    let log = Log::default();
    let mut app = stack_of(
        &log,
        &[("a", Answer::PopAgain), ("b", Answer::PopWithLevel(2)), ("c", Answer::PopAgain)],
    );
    let result = app.handle_scene_outcome(SceneOutcome::Pop(SceneSignal::LevelChoice(1)));
    assert_eq!(result, Resolution::Refused(SceneSignal::JustPop));
    assert_eq!(names(&app), vec!["a"]);
    assert_eq!(
        *log.borrow(),
        vec![
            "b.handle_signal(LevelChoice(1))".to_string(),
            "a.handle_signal(LevelChoice(2))".to_string(),
        ]
    );
}

#[test]
fn cascade_stops_at_the_first_scene_that_stays() {
    let log = Log::default();
    let mut app = stack_of(
        &log,
        &[("a", Answer::PopAgain), ("b", Answer::Stay), ("c", Answer::PopAgain), ("d", Answer::Stay)],
    );
    let result = app.handle_scene_outcome(SceneOutcome::Pop(SceneSignal::JustPop));
    assert_eq!(result, Resolution::Settled);
    assert_eq!(names(&app), vec!["a", "b"]);
    assert_eq!(
        *log.borrow(),
        vec!["c.handle_signal(JustPop)".to_string(), "b.handle_signal(JustPop)".to_string()]
    );
}

#[test]
fn scene_pushed_within_a_cascade_is_not_resolved_further() {
    let log = Log::default();
    let mut app = stack_of(
        &log,
        &[("a", Answer::Stay), ("b", Answer::PushChild("child")), ("c", Answer::Stay)],
    );
    let result = app.handle_scene_outcome(SceneOutcome::Pop(SceneSignal::JustPop));
    assert_eq!(result, Resolution::Settled);
    assert_eq!(names(&app), vec!["a", "b", "child"]);
    assert_eq!(app.active().name, "child");
    assert_eq!(*log.borrow(), vec!["b.handle_signal(JustPop)".to_string()]);
}

#[test]
fn scenes_beneath_the_cascade_are_not_called() {
    let log = Log::default();
    let mut app = stack_of(
        &log,
        &[
            ("a", Answer::PopAgain),
            ("b", Answer::PopAgain),
            ("c", Answer::Stay),
            ("d", Answer::PopAgain),
            ("e", Answer::Stay),
        ],
    );
    let result = app.handle_scene_outcome(SceneOutcome::Pop(SceneSignal::JustPop));
    assert_eq!(result, Resolution::Settled);
    assert_eq!(names(&app), vec!["a", "b", "c"]);
    let log = log.borrow();
    assert_eq!(log.len(), 2);
    assert!(log.iter().all(|line| !line.starts_with("a.") && !line.starts_with("b.")));
}

#[test]
fn resolution_runs_no_frame() {
    let log = Log::default();
    let mut app = stack_of(&log, &[("a", Answer::Stay), ("b", Answer::PopAgain), ("c", Answer::Stay)]);
    app.handle_scene_outcome(SceneOutcome::Pop(SceneSignal::JustPop));
    assert!(log.borrow().iter().all(|line| !line.contains(".frame(")));
}

#[test]
fn deep_cascade_needs_no_call_depth() {
    let log = Log::default();
    let mut app = Application::new(Probe::new("base", Answer::Stay, &log));
    let depth = 200_000;
    for _ in 0..depth {
        app.handle_scene_outcome(SceneOutcome::Push(Probe::new("layer", Answer::PopAgain, &log)));
    }
    assert_eq!(app.scenes().len(), depth + 1);
    let result = app.handle_scene_outcome(SceneOutcome::Pop(SceneSignal::JustPop));
    assert_eq!(result, Resolution::Settled);
    assert_eq!(names(&app), vec!["base"]);
    assert_eq!(log.borrow().len(), depth);
    assert_eq!(log.borrow()[depth - 1], "base.handle_signal(JustPop)");
}

#[test]
fn resolution_leaves_the_surface_size_alone() {
    let log = Log::default();
    let mut app = stack_of(&log, &[("base", Answer::Stay), ("menu", Answer::Stay)]);
    app.handle_scene_outcome(SceneOutcome::Pop(SceneSignal::JustPop));
    assert_eq!(app.xres(), 1600);
    assert_eq!(app.yres(), 900);
}
