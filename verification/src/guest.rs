//! The two guest ABIs and the two forms a guest takes on its way to running.

use vstd::prelude::*;

verus! {

/// The system-call ABI that an execution context is built for.
#[derive(Clone, Copy, Debug, PartialEq, Eq, Structural)]
pub enum WasiVersion {
    /// The legacy ABI, spoken by modules.
    Preview1,
    /// The modern ABI, spoken by components.
    Preview2,
}

/// A compiled guest that has not been instantiated yet, by the ABI it was taken for.
#[derive(Clone, Copy, Debug, PartialEq, Eq, Structural)]
pub enum CommandInstancePre {
    Component,
    Module,
}

/// A live guest, by the ABI of the handle it was instantiated from.
#[derive(Clone, Copy, Debug, PartialEq, Eq, Structural)]
pub enum CommandInstance {
    Component,
    Module,
}

impl CommandInstancePre {
    /// The form of every instance made from this handle.
    pub open spec fn instance(self) -> CommandInstance {
        match self {
            CommandInstancePre::Component => CommandInstance::Component,
            CommandInstancePre::Module => CommandInstance::Module,
        }
    }

    /// Tags what the engine answered to an instantiate call on this handle: a
    /// success is an instance of the handle's own form, a failure keeps the
    /// engine's message.
    pub fn instantiate(&self, outcome: Result<(), String>) -> (result: Result<
        CommandInstance,
        String,
    >)
        ensures
            outcome is Ok ==> result == Ok::<CommandInstance, String>(self.instance()),
            outcome matches Err(message) ==> result == Err::<CommandInstance, String>(message),
    {
        match outcome {
            Ok(()) => match self {
                CommandInstancePre::Component => Ok(CommandInstance::Component),
                CommandInstancePre::Module => Ok(CommandInstance::Module),
            },
            Err(message) => Err(message),
        }
    }
}

} // verus!
