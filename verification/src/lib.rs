//! A windowing / render-surface core: it keeps a logical render resolution
//! decoupled from the physical screen resolution, manages the lifecycle of the
//! offscreen surface used for resolution-independent rendering, and maintains a
//! transient debug-message overlay.
//!
//! The native graphics backend is an external collaborator: every operation
//! here is pure state logic that records the backend calls it needs as
//! [`backend::BackendCommand`] values, which a thin shim executes against the
//! real backend.

pub mod backend;
pub mod overlay;
pub mod surface;
pub mod screen;
pub mod laws;
