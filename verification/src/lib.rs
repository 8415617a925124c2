//! A stack of scenes for an interactive application.
//!
//! A scene is one state of the application (a menu, a level, an overlay).
//! The manager keeps the scenes in a stack, hands every frame and every
//! input event to the scenes at the top, gathers the stack changes that
//! the scenes ask for, and carries those changes out once the walk over
//! the stack is over.
//!
//! Every callback of a scene is described by a spec function of
//! the [`Scene`] trait. The contracts of the manager are equations over
//! those functions: they fix which callbacks run, in which order, on which
//! scene and with which context.

pub mod scene;
pub mod transition;
pub mod manager;
pub mod laws;

pub use scene::Scene;
pub use transition::Transition;
pub use manager::SceneManager;
