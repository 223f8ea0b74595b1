//! The conditions the runtime can meet, and which of them end it.

use vstd::prelude::*;
use crate::loader::LoadError;

verus! {

/// A condition that breaks the pipeline. Each one ends the whole host.
#[derive(Clone, Copy, Debug, PartialEq, Eq, Structural)]
pub enum Fault {
    /// Reading from a physical device failed.
    DeviceReadFailure,
    /// Writing to the output device failed.
    DeviceWriteFailure,
    /// A producer or the consumer of the output queue is gone.
    ChannelClosed,
    /// A participant went down while it held the registry lock.
    LockPoisoned,
}

/// Anything the runtime reports.
#[derive(Clone, Copy, Debug, PartialEq, Eq, Structural)]
pub enum Condition {
    /// A module was rejected. It is simply absent from the registry.
    Load(LoadError),
    /// A path was to be unloaded that was not loaded.
    RegistryInconsistency,
    /// The pipeline is broken.
    Fatal(Fault),
}

/// How the host answers a condition.
#[derive(Clone, Copy, Debug, PartialEq, Eq, Structural)]
pub enum Response {
    /// Log it and go on.
    Report,
    /// Log it as a warning and go on.
    Warn,
    /// Stop every absorber and the emitter.
    Shutdown,
}

/// The propagation policy: what concerns one module is reported where it
/// happened, what breaks the pipeline shuts the host down.
pub open spec fn spec_respond(condition: Condition) -> Response {
    match condition {
        Condition::Load(_) => Response::Report,
        Condition::RegistryInconsistency => Response::Warn,
        Condition::Fatal(_) => Response::Shutdown,
    }
}

/// Says how the host answers `condition`.
pub fn respond(condition: Condition) -> (response: Response)
    ensures
        response == spec_respond(condition),
        response == Response::Shutdown <==> condition is Fatal,
{
    match condition {
        Condition::Load(_) => Response::Report,
        Condition::RegistryInconsistency => Response::Warn,
        Condition::Fatal(_) => Response::Shutdown,
    }
}

} // verus!
