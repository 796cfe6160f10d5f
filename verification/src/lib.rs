//! A scene stack for an interactive real-time application.
//!
//! A *scene* is one interactive mode of the application: an editor, a menu,
//! a level being played. Scenes live on a stack whose last entry owns the
//! screen and the input. A scene never touches the stack itself: it asks for
//! a change by returning a [`SceneOutcome`], and a scene that leaves hands a
//! [`SceneSignal`] to the scene beneath it.
//!
//! [`Application`] owns the stack. Its `handle_scene_outcome` applies one
//! outcome together with the whole cascade of outcomes that delivered signals
//! bring forth, and its `handle_event` sequences one tick of the event loop.
//! A resize of the window and a request to close it are dealt with at once.
//! Any other platform event is aggregated, and where that completes the input
//! of a frame: clear the frame buffer, run one frame of the active scene, let
//! the host present the geometry, then apply the outcome of that frame. The
//! library performs no input or output. The host carries out each [`Action`]
//! and reports back with the next [`Event`].
pub mod application;
pub mod driver;
pub mod laws;
pub mod protocol;
pub mod resolution;
pub mod scene;

pub use application::{Application, DEFAULT_XRES, DEFAULT_YRES};
pub use driver::{Action, DriverState, Event, Phase, PlatformEvent};
pub use protocol::{SceneOutcome, SceneSignal};
pub use resolution::Resolution;
pub use scene::Scene;
