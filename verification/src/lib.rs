//! Runtime core of a host that intercepts input-device events, lets separately
//! compiled macro modules observe and consume them, and re-emits what is left.
//!
//! Every rule of the runtime is a verified function over plain values. Reading
//! devices, loading artifacts, running module code and moving batches between
//! threads is left to the embedding program, which feeds the outcomes back in.

pub mod absorber;
pub mod capability;
pub mod device;
pub mod emitter;
pub mod event;
pub mod fault;
pub mod loader;
pub mod registry;
pub mod sleep;
pub mod watch;
pub mod worker;

pub use crate::capability::Incro;
pub use crate::event::InputEvent;
pub use crate::loader::INCRO_VERSION;
pub use crate::worker::{TaskHandle, ThreadHandle};
