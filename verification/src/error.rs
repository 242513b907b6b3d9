//! What can go wrong in a run, and how a failure is reported.

use crate::guest::{CommandInstance, WasiVersion};
use vstd::prelude::*;
use vstd::string::*;

verus! {

/// The step of building an execution context that the engine refused.
#[derive(Clone, Copy, Debug, PartialEq, Eq, Structural)]
pub enum SetupStep {
    OpenContext,
    InjectEnv,
    RegisterMount,
    SetArgs,
}

/// A failed run. Every variant is final for the invocation.
#[derive(Debug, PartialEq, Eq)]
pub enum TriggerError {
    /// The artifact loads neither as a module nor as a component.
    Classification { module_error: String, component_error: String },
    /// The artifact loads as a module but imports from outside the legacy namespace.
    UnsupportedImports { cause: String },
    /// A component without the command entry point, or a module without the start export.
    MissingCallingConvention { instance: CommandInstance, reason: Option<String> },
    /// A runner directory is absent on the host.
    MountMissing { host_path: String },
    /// The engine refused a step of building the execution context.
    ContextSetup { guest_id: String, version: WasiVersion, step: SetupStep, cause: String },
    /// The engine could not instantiate the guest.
    Instantiation { guest_id: String, version: WasiVersion, cause: String },
    /// The guest's entry point raised.
    GuestTrap { guest_id: String, instance: CommandInstance, cause: String },
}

/// The mathematical form of a [`TriggerError`].
pub enum TriggerErrorView {
    Classification { module_error: Seq<char>, component_error: Seq<char> },
    UnsupportedImports { cause: Seq<char> },
    MissingCallingConvention { instance: CommandInstance, reason: Option<Seq<char>> },
    MountMissing { host_path: Seq<char> },
    ContextSetup { guest_id: Seq<char>, version: WasiVersion, step: SetupStep, cause: Seq<char> },
    Instantiation { guest_id: Seq<char>, version: WasiVersion, cause: Seq<char> },
    GuestTrap { guest_id: Seq<char>, instance: CommandInstance, cause: Seq<char> },
}

impl View for TriggerError {
    type V = TriggerErrorView;

    open spec fn view(&self) -> TriggerErrorView {
        match *self {
            TriggerError::Classification { module_error, component_error } => {
                TriggerErrorView::Classification {
                    module_error: module_error@,
                    component_error: component_error@,
                }
            },
            TriggerError::UnsupportedImports { cause } => TriggerErrorView::UnsupportedImports {
                cause: cause@,
            },
            TriggerError::MissingCallingConvention { instance, reason } => {
                TriggerErrorView::MissingCallingConvention {
                    instance,
                    reason: match reason {
                        Some(text) => Some(text@),
                        None => None,
                    },
                }
            },
            TriggerError::MountMissing { host_path } => TriggerErrorView::MountMissing {
                host_path: host_path@,
            },
            TriggerError::ContextSetup { guest_id, version, step, cause } => {
                TriggerErrorView::ContextSetup {
                    guest_id: guest_id@,
                    version,
                    step,
                    cause: cause@,
                }
            },
            TriggerError::Instantiation { guest_id, version, cause } => {
                TriggerErrorView::Instantiation { guest_id: guest_id@, version, cause: cause@ }
            },
            TriggerError::GuestTrap { guest_id, instance, cause } => TriggerErrorView::GuestTrap {
                guest_id: guest_id@,
                instance,
                cause: cause@,
            },
        }
    }
}

/// How an ABI is named in a message.
pub open spec fn version_text(version: WasiVersion) -> Seq<char> {
    match version {
        WasiVersion::Preview1 => "preview1"@,
        WasiVersion::Preview2 => "preview2"@,
    }
}

/// How a guest's form is named in a message.
pub open spec fn instance_text(instance: CommandInstance) -> Seq<char> {
    match instance {
        CommandInstance::Component => "component"@,
        CommandInstance::Module => "module"@,
    }
}

/// How a refused step is named in a message.
pub open spec fn step_text(step: SetupStep) -> Seq<char> {
    match step {
        SetupStep::OpenContext => "failed to open the execution context"@,
        SetupStep::InjectEnv => "failed to inject the environment"@,
        SetupStep::RegisterMount => "failed to register a mount"@,
        SetupStep::SetArgs => "failed to set the arguments"@,
    }
}

/// A message followed by its causes, outermost first, each introduced by a colon.
pub open spec fn with_causes(head: Seq<char>, causes: Seq<Seq<char>>) -> Seq<char>
    decreases causes.len(),
{
    if causes.len() == 0 {
        head
    } else {
        with_causes(head + ": "@ + causes[0], causes.drop_first())
    }
}

/// Whether `needle` occurs in `text` as a contiguous run.
pub open spec fn occurs_in(needle: Seq<char>, text: Seq<char>) -> bool {
    exists|at: int|
        0 <= at && at + needle.len() <= text.len() && #[trigger] text.subrange(
            at,
            at + needle.len(),
        ) == needle
}

impl TriggerErrorView {
    /// The error's own message, without its causes.
    pub open spec fn message(self) -> Seq<char> {
        match self {
            TriggerErrorView::Classification { .. } => "failed to load component or module"@,
            TriggerErrorView::UnsupportedImports { .. } => "module uses unsupported imports"@,
            TriggerErrorView::MissingCallingConvention { instance, .. } => match instance {
                CommandInstance::Component => {
                    "guest does not target the expected calling convention"@
                },
                CommandInstance::Module => "Expected component to export _start function"@,
            },
            TriggerErrorView::MountMissing { host_path } => "dir "@ + host_path
                + " does not exist"@,
            TriggerErrorView::ContextSetup { guest_id, version, step, .. } => step_text(step)
                + " of "@ + version_text(version) + " guest "@ + guest_id,
            TriggerErrorView::Instantiation { guest_id, version, .. } => "failed to instantiate "@
                + version_text(version) + " guest "@ + guest_id,
            TriggerErrorView::GuestTrap { guest_id, instance, .. } => instance_text(instance)
                + " guest "@ + guest_id + " failed"@,
        }
    }

    /// The messages of what led to the error, the nearest cause first.
    pub open spec fn causes(self) -> Seq<Seq<char>> {
        match self {
            TriggerErrorView::Classification { module_error, component_error } => seq![
                module_error,
                component_error,
            ],
            TriggerErrorView::UnsupportedImports { cause } => seq![cause],
            TriggerErrorView::MissingCallingConvention { reason, .. } => match reason {
                Some(text) => seq![text],
                None => Seq::empty(),
            },
            TriggerErrorView::MountMissing { .. } => Seq::empty(),
            TriggerErrorView::ContextSetup { cause, .. } => seq![cause],
            TriggerErrorView::Instantiation { cause, .. } => seq![cause],
            TriggerErrorView::GuestTrap { cause, .. } => seq![cause],
        }
    }

    /// The whole report on one line: the message, then every cause.
    pub open spec fn describe(self) -> Seq<char> {
        with_causes(self.message(), self.causes())
    }
}

fn version_name(version: WasiVersion) -> (name: &'static str)
    ensures
        name@ == version_text(version),
{
    match version {
        WasiVersion::Preview1 => "preview1",
        WasiVersion::Preview2 => "preview2",
    }
}

fn instance_name(instance: CommandInstance) -> (name: &'static str)
    ensures
        name@ == instance_text(instance),
{
    match instance {
        CommandInstance::Component => "component",
        CommandInstance::Module => "module",
    }
}

fn step_name(step: SetupStep) -> (name: &'static str)
    ensures
        name@ == step_text(step),
{
    match step {
        SetupStep::OpenContext => "failed to open the execution context",
        SetupStep::InjectEnv => "failed to inject the environment",
        SetupStep::RegisterMount => "failed to register a mount",
        SetupStep::SetArgs => "failed to set the arguments",
    }
}

impl TriggerError {
    /// The error's own message, without its causes.
    pub fn message(&self) -> (text: String)
        ensures
            text@ == self@.message(),
    {
        match self {
            TriggerError::Classification { .. } => String::from_str(
                "failed to load component or module",
            ),
            TriggerError::UnsupportedImports { .. } => String::from_str(
                "module uses unsupported imports",
            ),
            TriggerError::MissingCallingConvention { instance, .. } => match instance {
                CommandInstance::Component => String::from_str(
                    "guest does not target the expected calling convention",
                ),
                CommandInstance::Module => String::from_str(
                    "Expected component to export _start function",
                ),
            },
            TriggerError::MountMissing { host_path } => {
                let mut text = String::from_str("dir ");
                text.append(host_path.as_str());
                text.append(" does not exist");
                text
            },
            TriggerError::ContextSetup { guest_id, version, step, .. } => {
                let mut text = String::from_str(step_name(*step));
                text.append(" of ");
                text.append(version_name(*version));
                text.append(" guest ");
                text.append(guest_id.as_str());
                text
            },
            TriggerError::Instantiation { guest_id, version, .. } => {
                let mut text = String::from_str("failed to instantiate ");
                text.append(version_name(*version));
                text.append(" guest ");
                text.append(guest_id.as_str());
                text
            },
            TriggerError::GuestTrap { guest_id, instance, .. } => {
                let mut text = String::from_str(instance_name(*instance));
                text.append(" guest ");
                text.append(guest_id.as_str());
                text.append(" failed");
                text
            },
        }
    }

    /// The messages of what led to the error, the nearest cause first.
    pub fn causes(&self) -> (list: Vec<String>)
        ensures
            list.deep_view() == self@.causes(),
    {
        let mut list: Vec<String> = Vec::new();
        match self {
            TriggerError::Classification { module_error, component_error } => {
                list.push(module_error.clone());
                list.push(component_error.clone());
            },
            TriggerError::UnsupportedImports { cause } => {
                list.push(cause.clone());
            },
            TriggerError::MissingCallingConvention { reason, .. } => match reason {
                Some(text) => {
                    list.push(text.clone());
                },
                None => {},
            },
            TriggerError::MountMissing { .. } => {},
            TriggerError::ContextSetup { cause, .. } => {
                list.push(cause.clone());
            },
            TriggerError::Instantiation { cause, .. } => {
                list.push(cause.clone());
            },
            TriggerError::GuestTrap { cause, .. } => {
                list.push(cause.clone());
            },
        }
        assert(list.deep_view() =~= self@.causes());
        list
    }

    /// The whole report on one line: the message, then every cause, each
    /// introduced by a colon.
    pub fn describe(&self) -> (text: String)
        ensures
            text@ == self@.describe(),
    {
        let mut text = self.message();
        let causes = self.causes();
        let mut done: usize = 0;
        assert(self@.causes().skip(0) =~= self@.causes());
        while done < causes.len()
            invariant
                done <= causes.len(),
                causes.deep_view() == self@.causes(),
                with_causes(text@, self@.causes().skip(done as int)) == self@.describe(),
            decreases causes.len() - done,
        {
            assert(self@.causes().skip(done as int).drop_first() =~= self@.causes().skip(
                done as int + 1,
            ));
            assert(self@.causes().skip(done as int)[0] == causes[done as int]@);
            text.append(": ");
            text.append(causes[done].as_str());
            done = done + 1;
        }
        text
    }
}

/// A classification failure reports why each loader refused the artifact:
/// both messages are among its causes, and both can be read in its one-line
/// report.
pub proof fn lemma_classification_keeps_both_causes(
    module_error: Seq<char>,
    component_error: Seq<char>,
)
    ensures
        ({
            let error = TriggerErrorView::Classification { module_error, component_error };
            &&& error.causes() == seq![module_error, component_error]
            &&& occurs_in(module_error, error.describe())
            &&& occurs_in(component_error, error.describe())
        }),
{
    let error = TriggerErrorView::Classification { module_error, component_error };
    let head = error.message();
    let first = head + ": "@ + module_error;
    let whole = first + ": "@ + component_error;
    reveal_with_fuel(with_causes, 3);
    assert(error.causes().drop_first() =~= seq![component_error]);
    assert(seq![component_error].drop_first() =~= Seq::<Seq<char>>::empty());
    assert(error.describe() == whole);
    let at_module: int = head.len() as int + 2;
    assert(": "@.len() == 2) by {
        reveal_strlit(": ");
    }
    assert(whole.subrange(at_module, at_module + module_error.len()) =~= module_error);
    let at_component: int = first.len() as int + 2;
    assert(whole.subrange(at_component, at_component + component_error.len())
        =~= component_error);
}

} // verus!
