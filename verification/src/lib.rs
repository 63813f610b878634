//! A multi-window event dispatcher for GPU-accelerated GUI applications.
//!
//! The dispatcher owns a dynamic collection of window containers, routes
//! platform events to the container whose window identity matches, enforces
//! the single-current-GL-context discipline by temporarily taking ownership
//! of each window's context around dispatch, lazily constructs each window's
//! UI context on its first dispatch, and reduces the per-window scheduling
//! directives of one event-processing pass into a single process-level
//! directive for the platform event loop.
//!
//! The platform layer (OS windows, GL contexts, the immediate-mode UI
//! library) is represented by plain-value models in [`platform`] and
//! [`ui_context`]; the unverified shell that talks to the real platform
//! converts between those models and the platform's own types.

pub mod multi_window;
pub mod platform;
pub mod tracked_window;
pub mod ui_context;
pub mod windows;
