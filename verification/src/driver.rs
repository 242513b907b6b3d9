//! Running one guest: building its execution context, instantiating it and
//! invoking its entry point by the convention of its ABI.
//!
//! The driver never touches the engine. It is a transition function: given
//! where the run stands and what the engine answered, it says where the run
//! stands now and what to ask next.

use crate::config::{
    copy_strings, guest_argv, CliArgs, CommandTriggerConfig, Component, ComponentView,
};
use crate::env::{env_table, get_env_for_component, HostEnv};
use crate::error::{SetupStep, TriggerError, TriggerErrorView};
use crate::event::{Event, EventView};
use crate::github::{github_env_names, static_mount_pairs, static_vol_mounts};
use crate::guest::{CommandInstance, WasiVersion};
use vstd::pervasive::unreached;
use vstd::prelude::*;
use vstd::string::*;

verus! {

/// Where a run stands: what the engine was last asked for.
#[derive(Clone, Copy, Debug, PartialEq, Eq, Structural)]
pub enum DriverState {
    /// Nothing has been asked of the engine yet.
    Idle,
    /// A context for this ABI is being opened.
    OpeningContext(WasiVersion),
    /// The environment table is being injected.
    InjectingEnv,
    /// The host directory of the mount with this index is being probed.
    ProbingMount(usize),
    /// The mount with this index is being registered.
    RegisteringMount(usize),
    /// The arguments are being set on the context for this ABI.
    SettingArgs(WasiVersion),
    /// The guest is being instantiated in the context for this ABI.
    Instantiating(WasiVersion),
    /// The component's command entry point is being looked up.
    BindingCommand,
    /// The component's command entry point is running.
    RunningCommand,
    /// The module's start export is being looked up.
    LocatingStart,
    /// The module's start export is running.
    RunningStart,
    /// The guest ran to its end.
    Completed,
    /// The run failed.
    Failed,
}

/// What the caller is to do next for the run.
#[derive(Debug, PartialEq, Eq)]
pub enum DriverAction {
    /// Open a fresh execution context for the guest, for this ABI.
    OpenContext { guest_id: String, version: WasiVersion },
    /// Set these pairs on the context, in this order.
    SetEnv(Vec<(String, String)>),
    /// Report whether this host directory exists.
    ProbeDir { host_path: String },
    /// Bind the host directory into the guest at the guest path, read-write.
    MountDir { host_path: String, guest_path: String },
    /// Set these arguments on the context.
    SetArgs(Vec<String>),
    /// Instantiate the guest in the context.
    Instantiate { guest_id: String },
    /// Look up the component's command entry point.
    BindCommand,
    /// Call the component's command entry point and drop what it returns.
    InvokeCommand,
    /// Look up the module's export of this name.
    LocateStart { export: String },
    /// Call the module's start export, with no arguments and no results.
    InvokeStart,
    /// Stop: the run succeeded.
    Finish,
    /// Stop: the run failed with this error.
    Fail(TriggerError),
}

/// The mathematical form of a [`DriverAction`].
pub enum DriverActionView {
    OpenContext { guest_id: Seq<char>, version: WasiVersion },
    SetEnv(Seq<(Seq<char>, Seq<char>)>),
    ProbeDir { host_path: Seq<char> },
    MountDir { host_path: Seq<char>, guest_path: Seq<char> },
    SetArgs(Seq<Seq<char>>),
    Instantiate { guest_id: Seq<char> },
    BindCommand,
    InvokeCommand,
    LocateStart { export: Seq<char> },
    InvokeStart,
    Finish,
    Fail(TriggerErrorView),
}

impl View for DriverAction {
    type V = DriverActionView;

    open spec fn view(&self) -> DriverActionView {
        match *self {
            DriverAction::OpenContext { guest_id, version } => DriverActionView::OpenContext {
                guest_id: guest_id@,
                version,
            },
            DriverAction::SetEnv(table) => DriverActionView::SetEnv(table.deep_view()),
            DriverAction::ProbeDir { host_path } => DriverActionView::ProbeDir {
                host_path: host_path@,
            },
            DriverAction::MountDir { host_path, guest_path } => DriverActionView::MountDir {
                host_path: host_path@,
                guest_path: guest_path@,
            },
            DriverAction::SetArgs(argv) => DriverActionView::SetArgs(argv.deep_view()),
            DriverAction::Instantiate { guest_id } => DriverActionView::Instantiate {
                guest_id: guest_id@,
            },
            DriverAction::BindCommand => DriverActionView::BindCommand,
            DriverAction::InvokeCommand => DriverActionView::InvokeCommand,
            DriverAction::LocateStart { export } => DriverActionView::LocateStart {
                export: export@,
            },
            DriverAction::InvokeStart => DriverActionView::InvokeStart,
            DriverAction::Finish => DriverActionView::Finish,
            DriverAction::Fail(error) => DriverActionView::Fail(error@),
        }
    }
}

/// The name of the export that starts a module.
pub open spec fn start_export() -> Seq<char> {
    "_start"@
}

impl DriverState {
    /// Whether `event` answers what was last asked in this state.
    pub open spec fn takes(self, event: EventView) -> bool {
        match self {
            DriverState::Idle => event is Begin,
            DriverState::OpeningContext(_)
            | DriverState::InjectingEnv
            | DriverState::SettingArgs(_)
            | DriverState::BindingCommand
            | DriverState::RunningCommand
            | DriverState::RunningStart => event.is_verdict(),
            DriverState::ProbingMount(index) => index < static_mount_pairs().len()
                && event is Probed,
            DriverState::RegisteringMount(index) => index < static_mount_pairs().len()
                && event.is_verdict(),
            DriverState::Instantiating(version) => match event {
                EventView::Rejected(_) => true,
                EventView::Instantiated(instance) => version == WasiVersion::Preview2
                    || instance == CommandInstance::Module,
                _ => false,
            },
            DriverState::LocatingStart => event is Located,
            DriverState::Completed | DriverState::Failed => false,
        }
    }

    /// Whether the run has ended.
    pub open spec fn is_final(self) -> bool {
        self is Completed || self is Failed
    }

    /// Whether `event` answers what was last asked in this state.
    pub fn accepts(&self, event: &Event) -> (accepted: bool)
        ensures
            accepted == self.takes(event@),
    {
        let verdict = match event {
            Event::Done => true,
            Event::Rejected(_) => true,
            _ => false,
        };
        match self {
            DriverState::Idle => match event {
                Event::Begin => true,
                _ => false,
            },
            DriverState::OpeningContext(_)
            | DriverState::InjectingEnv
            | DriverState::SettingArgs(_)
            | DriverState::BindingCommand
            | DriverState::RunningCommand
            | DriverState::RunningStart => verdict,
            DriverState::ProbingMount(index) => match event {
                Event::Probed(_) => *index < 4,
                _ => false,
            },
            DriverState::RegisteringMount(index) => *index < 4 && verdict,
            DriverState::Instantiating(version) => match event {
                Event::Rejected(_) => true,
                Event::Instantiated(instance) => match (version, instance) {
                    (WasiVersion::Preview1, CommandInstance::Component) => false,
                    _ => true,
                },
                _ => false,
            },
            DriverState::LocatingStart => match event {
                Event::Located(_) => true,
                _ => false,
            },
            DriverState::Completed | DriverState::Failed => false,
        }
    }
}

/// The failed state, with the error to report.
pub open spec fn failed(error: TriggerErrorView) -> (DriverState, DriverActionView) {
    (DriverState::Failed, DriverActionView::Fail(error))
}

/// The request to probe the host directory of the mount with this index.
pub open spec fn probe(index: int) -> (DriverState, DriverActionView) {
    (
        DriverState::ProbingMount(index as usize),
        DriverActionView::ProbeDir { host_path: static_mount_pairs()[index].0 },
    )
}

/// The request to register the mount with this index.
pub open spec fn register(index: int) -> (DriverState, DriverActionView) {
    (
        DriverState::RegisteringMount(index as usize),
        DriverActionView::MountDir {
            host_path: static_mount_pairs()[index].0,
            guest_path: static_mount_pairs()[index].1,
        },
    )
}

/// The run's transition for the guest `guest`: the state after `event`, and
/// what to do next. It is defined where `state` takes `event`.
///
/// The first context is built for the modern ABI, with the environment, the
/// mounts and the arguments. Every host directory is probed before any mount
/// is registered. A guest that turns out to be a module gets a second context
/// for the legacy ABI, which receives the arguments alone.
pub open spec fn driver_step(
    guest: ComponentView,
    args: Seq<Seq<char>>,
    host: Map<Seq<char>, Seq<char>>,
    state: DriverState,
    event: EventView,
) -> (DriverState, DriverActionView) {
    let mounts = static_mount_pairs().len();
    match (state, event) {
        (DriverState::Idle, EventView::Begin) => (
            DriverState::OpeningContext(WasiVersion::Preview2),
            DriverActionView::OpenContext { guest_id: guest.id, version: WasiVersion::Preview2 },
        ),
        (DriverState::OpeningContext(WasiVersion::Preview2), EventView::Done) => (
            DriverState::InjectingEnv,
            DriverActionView::SetEnv(env_table(github_env_names(), guest.env, host)),
        ),
        (DriverState::OpeningContext(WasiVersion::Preview1), EventView::Done) => (
            DriverState::SettingArgs(WasiVersion::Preview1),
            DriverActionView::SetArgs(guest_argv(guest.id, args)),
        ),
        (DriverState::OpeningContext(version), EventView::Rejected(cause)) => failed(
            TriggerErrorView::ContextSetup {
                guest_id: guest.id,
                version,
                step: SetupStep::OpenContext,
                cause,
            },
        ),
        (DriverState::InjectingEnv, EventView::Done) => probe(0),
        (DriverState::InjectingEnv, EventView::Rejected(cause)) => failed(
            TriggerErrorView::ContextSetup {
                guest_id: guest.id,
                version: WasiVersion::Preview2,
                step: SetupStep::InjectEnv,
                cause,
            },
        ),
        (DriverState::ProbingMount(index), EventView::Probed(true)) => if index + 1 < mounts {
            probe(index + 1)
        } else {
            register(0)
        },
        (DriverState::ProbingMount(index), EventView::Probed(false)) => failed(
            TriggerErrorView::MountMissing { host_path: static_mount_pairs()[index as int].0 },
        ),
        (DriverState::RegisteringMount(index), EventView::Done) => if index + 1 < mounts {
            register(index + 1)
        } else {
            (
                DriverState::SettingArgs(WasiVersion::Preview2),
                DriverActionView::SetArgs(guest_argv(guest.id, args)),
            )
        },
        (DriverState::RegisteringMount(_), EventView::Rejected(cause)) => failed(
            TriggerErrorView::ContextSetup {
                guest_id: guest.id,
                version: WasiVersion::Preview2,
                step: SetupStep::RegisterMount,
                cause,
            },
        ),
        (DriverState::SettingArgs(version), EventView::Done) => (
            DriverState::Instantiating(version),
            DriverActionView::Instantiate { guest_id: guest.id },
        ),
        (DriverState::SettingArgs(version), EventView::Rejected(cause)) => failed(
            TriggerErrorView::ContextSetup {
                guest_id: guest.id,
                version,
                step: SetupStep::SetArgs,
                cause,
            },
        ),
        (
            DriverState::Instantiating(WasiVersion::Preview2),
            EventView::Instantiated(CommandInstance::Component),
        ) => (DriverState::BindingCommand, DriverActionView::BindCommand),
        (
            DriverState::Instantiating(WasiVersion::Preview2),
            EventView::Instantiated(CommandInstance::Module),
        ) => (
            DriverState::OpeningContext(WasiVersion::Preview1),
            DriverActionView::OpenContext { guest_id: guest.id, version: WasiVersion::Preview1 },
        ),
        (
            DriverState::Instantiating(WasiVersion::Preview1),
            EventView::Instantiated(CommandInstance::Module),
        ) => (
            DriverState::LocatingStart,
            DriverActionView::LocateStart { export: start_export() },
        ),
        (DriverState::Instantiating(version), EventView::Rejected(cause)) => failed(
            TriggerErrorView::Instantiation { guest_id: guest.id, version, cause },
        ),
        (DriverState::BindingCommand, EventView::Done) => (
            DriverState::RunningCommand,
            DriverActionView::InvokeCommand,
        ),
        (DriverState::BindingCommand, EventView::Rejected(cause)) => failed(
            TriggerErrorView::MissingCallingConvention {
                instance: CommandInstance::Component,
                reason: Some(cause),
            },
        ),
        (DriverState::RunningCommand, EventView::Done) => (
            DriverState::Completed,
            DriverActionView::Finish,
        ),
        (DriverState::RunningCommand, EventView::Rejected(cause)) => failed(
            TriggerErrorView::GuestTrap {
                guest_id: guest.id,
                instance: CommandInstance::Component,
                cause,
            },
        ),
        (DriverState::LocatingStart, EventView::Located(true)) => (
            DriverState::RunningStart,
            DriverActionView::InvokeStart,
        ),
        (DriverState::LocatingStart, EventView::Located(false)) => failed(
            TriggerErrorView::MissingCallingConvention {
                instance: CommandInstance::Module,
                reason: None,
            },
        ),
        (DriverState::RunningStart, EventView::Done) => (
            DriverState::Completed,
            DriverActionView::Finish,
        ),
        (DriverState::RunningStart, EventView::Rejected(cause)) => failed(
            TriggerErrorView::GuestTrap {
                guest_id: guest.id,
                instance: CommandInstance::Module,
                cause,
            },
        ),
        _ => arbitrary(),
    }
}

/// The trigger: the guests that the application configures.
#[derive(Debug)]
pub struct CommandTrigger {
    components: Vec<Component>,
}

impl View for CommandTrigger {
    type V = Seq<ComponentView>;

    closed spec fn view(&self) -> Seq<ComponentView> {
        Seq::new(self.components@.len(), |at: int| self.components@[at]@)
    }
}

fn request_probe(index: usize) -> (next: (DriverState, DriverAction))
    requires
        index < static_mount_pairs().len(),
    ensures
        (next.0, next.1@) == probe(index as int),
{
    let mounts = static_vol_mounts();
    assert(mounts.deep_view().len() == 4);
    assert(mounts.deep_view()[index as int] == static_mount_pairs()[index as int]);
    (
        DriverState::ProbingMount(index),
        DriverAction::ProbeDir { host_path: String::from_str(mounts[index].0) },
    )
}

fn request_mount(index: usize) -> (next: (DriverState, DriverAction))
    requires
        index < static_mount_pairs().len(),
    ensures
        (next.0, next.1@) == register(index as int),
{
    let mounts = static_vol_mounts();
    assert(mounts.deep_view().len() == 4);
    assert(mounts.deep_view()[index as int] == static_mount_pairs()[index as int]);
    (
        DriverState::RegisteringMount(index),
        DriverAction::MountDir {
            host_path: String::from_str(mounts[index].0),
            guest_path: String::from_str(mounts[index].1),
        },
    )
}

fn missing_mount(index: usize) -> (error: TriggerError)
    requires
        index < static_mount_pairs().len(),
    ensures
        error@ == (TriggerErrorView::MountMissing {
            host_path: static_mount_pairs()[index as int].0,
        }),
{
    let mounts = static_vol_mounts();
    assert(mounts.deep_view().len() == 4);
    assert(mounts.deep_view()[index as int] == static_mount_pairs()[index as int]);
    TriggerError::MountMissing { host_path: String::from_str(mounts[index].0) }
}

impl CommandTrigger {
    /// The trigger for the guests that `configs` describes, in that order.
    pub fn new(configs: &Vec<CommandTriggerConfig>) -> (trigger: CommandTrigger)
        ensures
            trigger@ == Seq::new(configs@.len(), |at: int| configs@[at]@.component()),
    {
        let mut components: Vec<Component> = Vec::new();
        let mut at: usize = 0;
        while at < configs.len()
            invariant
                at <= configs.len(),
                components@.len() == at,
                forall|done: int|
                    0 <= done < at ==> (#[trigger] components@[done])@ == configs@[done]@.component(),
            decreases configs.len() - at,
        {
            components.push(configs[at].to_component());
            at = at + 1;
        }
        let trigger = CommandTrigger { components };
        assert(trigger@ =~= Seq::new(configs@.len(), |at: int| configs@[at]@.component()));
        trigger
    }

    /// How many guests are configured.
    pub fn len(&self) -> (count: usize)
        ensures
            count == self@.len(),
    {
        self.components.len()
    }

    /// One step of running the first configured guest: takes the answer to
    /// the last action and says where the run stands now and what to do next.
    ///
    /// `args` and `host` are those of the run and stay the same from step to
    /// step.
    pub fn handle(&self, args: &CliArgs, host: &HostEnv, state: DriverState, event: Event) -> (next:
        (DriverState, DriverAction))
        requires
            self@.len() > 0,
            state.takes(event@),
        ensures
            (next.0, next.1@) == driver_step(self@[0], args@, host@, state, event@),
    {
        let component = &self.components[0];
        assert(component@ == self@[0]);
        match state {
            DriverState::Idle => (
                DriverState::OpeningContext(WasiVersion::Preview2),
                DriverAction::OpenContext {
                    guest_id: component.id.clone(),
                    version: WasiVersion::Preview2,
                },
            ),
            DriverState::OpeningContext(version) => match event {
                Event::Done => match version {
                    WasiVersion::Preview2 => (
                        DriverState::InjectingEnv,
                        DriverAction::SetEnv(
                            get_env_for_component(copy_strings(&component.env), host),
                        ),
                    ),
                    WasiVersion::Preview1 => (
                        DriverState::SettingArgs(WasiVersion::Preview1),
                        DriverAction::SetArgs(args.apply_args_to_store(component.id.as_str())),
                    ),
                },
                Event::Rejected(cause) => (
                    DriverState::Failed,
                    DriverAction::Fail(
                        TriggerError::ContextSetup {
                            guest_id: component.id.clone(),
                            version,
                            step: SetupStep::OpenContext,
                            cause,
                        },
                    ),
                ),
                _ => unreached(),
            },
            DriverState::InjectingEnv => match event {
                Event::Done => request_probe(0),
                Event::Rejected(cause) => (
                    DriverState::Failed,
                    DriverAction::Fail(
                        TriggerError::ContextSetup {
                            guest_id: component.id.clone(),
                            version: WasiVersion::Preview2,
                            step: SetupStep::InjectEnv,
                            cause,
                        },
                    ),
                ),
                _ => unreached(),
            },
            DriverState::ProbingMount(index) => match event {
                Event::Probed(true) => if index + 1 < 4 {
                    request_probe(index + 1)
                } else {
                    request_mount(0)
                },
                Event::Probed(false) => (
                    DriverState::Failed,
                    DriverAction::Fail(missing_mount(index)),
                ),
                _ => unreached(),
            },
            DriverState::RegisteringMount(index) => match event {
                Event::Done => if index + 1 < 4 {
                    request_mount(index + 1)
                } else {
                    (
                        DriverState::SettingArgs(WasiVersion::Preview2),
                        DriverAction::SetArgs(args.apply_args_to_store(component.id.as_str())),
                    )
                },
                Event::Rejected(cause) => (
                    DriverState::Failed,
                    DriverAction::Fail(
                        TriggerError::ContextSetup {
                            guest_id: component.id.clone(),
                            version: WasiVersion::Preview2,
                            step: SetupStep::RegisterMount,
                            cause,
                        },
                    ),
                ),
                _ => unreached(),
            },
            DriverState::SettingArgs(version) => match event {
                Event::Done => (
                    DriverState::Instantiating(version),
                    DriverAction::Instantiate { guest_id: component.id.clone() },
                ),
                Event::Rejected(cause) => (
                    DriverState::Failed,
                    DriverAction::Fail(
                        TriggerError::ContextSetup {
                            guest_id: component.id.clone(),
                            version,
                            step: SetupStep::SetArgs,
                            cause,
                        },
                    ),
                ),
                _ => unreached(),
            },
            DriverState::Instantiating(version) => match event {
                Event::Instantiated(CommandInstance::Component) => (
                    DriverState::BindingCommand,
                    DriverAction::BindCommand,
                ),
                Event::Instantiated(CommandInstance::Module) => match version {
                    WasiVersion::Preview2 => (
                        DriverState::OpeningContext(WasiVersion::Preview1),
                        DriverAction::OpenContext {
                            guest_id: component.id.clone(),
                            version: WasiVersion::Preview1,
                        },
                    ),
                    WasiVersion::Preview1 => (
                        DriverState::LocatingStart,
                        DriverAction::LocateStart { export: String::from_str("_start") },
                    ),
                },
                Event::Rejected(cause) => (
                    DriverState::Failed,
                    DriverAction::Fail(
                        TriggerError::Instantiation {
                            guest_id: component.id.clone(),
                            version,
                            cause,
                        },
                    ),
                ),
                _ => unreached(),
            },
            DriverState::BindingCommand => match event {
                Event::Done => (DriverState::RunningCommand, DriverAction::InvokeCommand),
                Event::Rejected(cause) => (
                    DriverState::Failed,
                    DriverAction::Fail(
                        TriggerError::MissingCallingConvention {
                            instance: CommandInstance::Component,
                            reason: Some(cause),
                        },
                    ),
                ),
                _ => unreached(),
            },
            DriverState::RunningCommand => match event {
                Event::Done => (DriverState::Completed, DriverAction::Finish),
                Event::Rejected(cause) => (
                    DriverState::Failed,
                    DriverAction::Fail(
                        TriggerError::GuestTrap {
                            guest_id: component.id.clone(),
                            instance: CommandInstance::Component,
                            cause,
                        },
                    ),
                ),
                _ => unreached(),
            },
            DriverState::LocatingStart => match event {
                Event::Located(true) => (DriverState::RunningStart, DriverAction::InvokeStart),
                Event::Located(false) => (
                    DriverState::Failed,
                    DriverAction::Fail(
                        TriggerError::MissingCallingConvention {
                            instance: CommandInstance::Module,
                            reason: None,
                        },
                    ),
                ),
                _ => unreached(),
            },
            DriverState::RunningStart => match event {
                Event::Done => (DriverState::Completed, DriverAction::Finish),
                Event::Rejected(cause) => (
                    DriverState::Failed,
                    DriverAction::Fail(
                        TriggerError::GuestTrap {
                            guest_id: component.id.clone(),
                            instance: CommandInstance::Module,
                            cause,
                        },
                    ),
                ),
                _ => unreached(),
            },
            DriverState::Completed | DriverState::Failed => unreached(),
        }
    }
}

} // verus!
