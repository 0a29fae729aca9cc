//! Player-instance lifecycle and control plane of an embedded media player:
//! the value bridge between the engine's dynamic values and the frontend's,
//! the reading of engine events, the per-window instance registry, the
//! frame-pacing state machine of render mode and the decisions of the public
//! operations. The engine itself, the host windows and the GL objects are
//! driven by the caller; this crate decides what is to be done with them.

pub mod desktop;
pub mod error;
pub mod event_loop;
pub mod json;
pub mod libmpv;
pub mod models;
pub mod registry;
pub mod render_thread;
pub mod utils;
