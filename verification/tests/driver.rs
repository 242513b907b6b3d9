use ghaction_trigger::{
    CliArgs, CommandInstance, CommandTrigger, CommandTriggerConfig, DriverAction, DriverState,
    Event, HostEnv, SetupStep, TriggerError, WasiVersion,
};

fn trigger() -> CommandTrigger {
    CommandTrigger::new(&vec![
        CommandTriggerConfig { component: "build".to_string(), env: vec!["TOKEN".to_string()] },
        CommandTriggerConfig { component: "other".to_string(), env: vec![] },
    ])
}

fn host() -> HostEnv {
    let mut host = HostEnv::new();
    host.set("HOME".to_string(), "/home/runner".to_string());
    host.set("TOKEN".to_string(), "t".to_string());
    host
}

fn verbose() -> CliArgs {
    CliArgs { guest_args: vec!["--verbose".to_string()] }
}

fn run(events: Vec<Event>) -> (DriverState, Vec<DriverAction>) {
    let trigger = trigger();
    let host = host();
    let args = verbose();
    assert!(trigger.len() > 0);
    let mut state = DriverState::Idle;
    let mut actions = Vec::new();
    for event in events {
        if !state.accepts(&event) {
            break;
        }
        let (next, action) = trigger.handle(&args, &host, state, event);
        state = next;
        actions.push(action);
    }
    (state, actions)
}

fn rejected(message: &str) -> Event {
    Event::Rejected(message.to_string())
}

fn pair(name: &str, value: &str) -> (String, String) {
    (name.to_string(), value.to_string())
}

fn open(version: WasiVersion) -> DriverAction {
    DriverAction::OpenContext { guest_id: "build".to_string(), version }
}

fn probe(host_path: &str) -> DriverAction {
    DriverAction::ProbeDir { host_path: host_path.to_string() }
}

fn mount(host_path: &str, guest_path: &str) -> DriverAction {
    DriverAction::MountDir { host_path: host_path.to_string(), guest_path: guest_path.to_string() }
}

fn argv() -> DriverAction {
    DriverAction::SetArgs(vec!["build".to_string(), "--verbose".to_string()])
}

fn instantiate() -> DriverAction {
    DriverAction::Instantiate { guest_id: "build".to_string() }
}

const HOME: &str = "/home/runner/work/_temp/_github_home";
const WORKFLOW: &str = "/home/runner/work/_temp/_github_workflow";
const FILE_COMMANDS: &str = "/home/runner/work/_temp/_runner_file_commands";
const WORKSPACE: &str = "/home/runner/work/conditioner/conditioner";

fn built() -> Vec<Event> {
    vec![
        Event::Begin,
        Event::Done,
        Event::Done,
        Event::Probed(true),
        Event::Probed(true),
        Event::Probed(true),
        Event::Probed(true),
        Event::Done,
        Event::Done,
        Event::Done,
        Event::Done,
        Event::Done,
    ]
}

fn building() -> Vec<DriverAction> {
    vec![
        open(WasiVersion::Preview2),
        DriverAction::SetEnv(vec![
            pair("HOME", "/home/runner"),
            pair("GITHUB_ACTIONS", "true"),
            pair("CI", "true"),
            pair("TOKEN", "t"),
        ]),
        probe(HOME),
        probe(WORKFLOW),
        probe(FILE_COMMANDS),
        probe(WORKSPACE),
        mount(HOME, "/github/home"),
        mount(WORKFLOW, "/github/workflow"),
        mount(FILE_COMMANDS, "/github/file_commands"),
        mount(WORKSPACE, "/github/workspace"),
        argv(),
        instantiate(),
    ]
}

fn with(mut events: Vec<Event>, more: Vec<Event>) -> Vec<Event> {
    events.extend(more);
    events
}

fn also(mut actions: Vec<DriverAction>, more: Vec<DriverAction>) -> Vec<DriverAction> {
    actions.extend(more);
    actions
}

#[test]
fn component_runs_with_its_id_as_first_argument() {
    let (state, actions) = run(with(
        built(),
        vec![Event::Instantiated(CommandInstance::Component), Event::Done, Event::Done],
    ));
    assert_eq!(state, DriverState::Completed);
    assert_eq!(
        actions,
        also(
            building(),
            vec![DriverAction::BindCommand, DriverAction::InvokeCommand, DriverAction::Finish],
        )
    );
    assert_eq!(
        actions[10],
        DriverAction::SetArgs(vec!["build".to_string(), "--verbose".to_string()])
    );
    let contexts = actions
        .iter()
        .filter(|action| matches!(action, DriverAction::OpenContext { .. }))
        .count();
    assert_eq!(contexts, 1);
}

#[test]
fn module_runs_in_a_second_context() {
    let (state, actions) = run(with(
        built(),
        vec![
            Event::Instantiated(CommandInstance::Module),
            Event::Done,
            Event::Done,
            Event::Instantiated(CommandInstance::Module),
            Event::Located(true),
            Event::Done,
        ],
    ));
    assert_eq!(state, DriverState::Completed);
    assert_eq!(
        actions,
        also(
            building(),
            vec![
                open(WasiVersion::Preview1),
                argv(),
                instantiate(),
                DriverAction::LocateStart { export: "_start".to_string() },
                DriverAction::InvokeStart,
                DriverAction::Finish,
            ],
        )
    );
    let start = actions.iter().position(|action| *action == DriverAction::InvokeStart).unwrap();
    let contexts: Vec<&DriverAction> = actions[..start]
        .iter()
        .filter(|action| matches!(action, DriverAction::OpenContext { .. }))
        .collect();
    assert_eq!(contexts, vec![&open(WasiVersion::Preview2), &open(WasiVersion::Preview1)]);
    let tables =
        actions.iter().filter(|action| matches!(action, DriverAction::SetEnv(_))).count();
    let mounts =
        actions.iter().filter(|action| matches!(action, DriverAction::MountDir { .. })).count();
    assert_eq!(tables, 1);
    assert_eq!(mounts, 4);
}

#[test]
fn missing_second_mount_stops_before_instantiation() {
    let (state, actions) = run(vec![
        Event::Begin,
        Event::Done,
        Event::Done,
        Event::Probed(true),
        Event::Probed(false),
        Event::Probed(true),
        Event::Probed(true),
        Event::Done,
    ]);
    assert_eq!(state, DriverState::Failed);
    assert_eq!(actions.len(), 5);
    assert_eq!(actions[2], probe(HOME));
    assert_eq!(actions[3], probe(WORKFLOW));
    assert_eq!(
        actions[4],
        DriverAction::Fail(TriggerError::MountMissing { host_path: WORKFLOW.to_string() })
    );
    assert!(actions.iter().all(|action| !matches!(action, DriverAction::Instantiate { .. })));
    assert!(actions.iter().all(|action| !matches!(action, DriverAction::MountDir { .. })));
    assert_eq!(actions.iter().filter(|action| matches!(action, DriverAction::ProbeDir { .. })).count(), 2);
}

#[test]
fn each_missing_mount_is_named() {
    let paths = [HOME, WORKFLOW, FILE_COMMANDS, WORKSPACE];
    for (missing, path) in paths.iter().enumerate() {
        let mut events = vec![Event::Begin, Event::Done, Event::Done];
        for at in 0..4 {
            events.push(Event::Probed(at != missing));
        }
        let (state, actions) = run(events);
        assert_eq!(state, DriverState::Failed);
        assert_eq!(actions.len(), 4 + missing);
        assert_eq!(
            actions[3 + missing],
            DriverAction::Fail(TriggerError::MountMissing { host_path: path.to_string() })
        );
    }
}

#[test]
fn refused_context_fails_the_run() {
    let (state, actions) = run(vec![Event::Begin, rejected("no such component")]);
    assert_eq!(state, DriverState::Failed);
    assert_eq!(
        actions[1],
        DriverAction::Fail(TriggerError::ContextSetup {
            guest_id: "build".to_string(),
            version: WasiVersion::Preview2,
            step: SetupStep::OpenContext,
            cause: "no such component".to_string(),
        })
    );
}

#[test]
fn refused_environment_fails_the_run() {
    let (state, actions) = run(vec![Event::Begin, Event::Done, rejected("bad name")]);
    assert_eq!(state, DriverState::Failed);
    assert_eq!(
        actions[2],
        DriverAction::Fail(TriggerError::ContextSetup {
            guest_id: "build".to_string(),
            version: WasiVersion::Preview2,
            step: SetupStep::InjectEnv,
            cause: "bad name".to_string(),
        })
    );
}

#[test]
fn refused_mount_fails_the_run() {
    let mut events = built();
    events.truncate(8);
    events.push(rejected("not a directory"));
    let (state, actions) = run(events);
    assert_eq!(state, DriverState::Failed);
    assert_eq!(actions.len(), 9);
    assert_eq!(
        actions[8],
        DriverAction::Fail(TriggerError::ContextSetup {
            guest_id: "build".to_string(),
            version: WasiVersion::Preview2,
            step: SetupStep::RegisterMount,
            cause: "not a directory".to_string(),
        })
    );
}

#[test]
fn refused_arguments_fail_the_run() {
    let mut events = built();
    events.truncate(11);
    events.push(rejected("nul byte"));
    let (state, actions) = run(events);
    assert_eq!(state, DriverState::Failed);
    assert_eq!(
        actions[11],
        DriverAction::Fail(TriggerError::ContextSetup {
            guest_id: "build".to_string(),
            version: WasiVersion::Preview2,
            step: SetupStep::SetArgs,
            cause: "nul byte".to_string(),
        })
    );
}

#[test]
fn failed_instantiation_is_reported_with_its_abi() {
    let (state, actions) = run(with(built(), vec![rejected("type mismatch")]));
    assert_eq!(state, DriverState::Failed);
    assert_eq!(
        actions[12],
        DriverAction::Fail(TriggerError::Instantiation {
            guest_id: "build".to_string(),
            version: WasiVersion::Preview2,
            cause: "type mismatch".to_string(),
        })
    );
    let (state, actions) = run(with(
        built(),
        vec![
            Event::Instantiated(CommandInstance::Module),
            Event::Done,
            Event::Done,
            rejected("link error"),
        ],
    ));
    assert_eq!(state, DriverState::Failed);
    assert_eq!(
        actions[15],
        DriverAction::Fail(TriggerError::Instantiation {
            guest_id: "build".to_string(),
            version: WasiVersion::Preview1,
            cause: "link error".to_string(),
        })
    );
}

#[test]
fn second_context_can_be_refused() {
    let (state, actions) = run(with(
        built(),
        vec![Event::Instantiated(CommandInstance::Module), rejected("busy")],
    ));
    assert_eq!(state, DriverState::Failed);
    assert_eq!(
        actions[13],
        DriverAction::Fail(TriggerError::ContextSetup {
            guest_id: "build".to_string(),
            version: WasiVersion::Preview1,
            step: SetupStep::OpenContext,
            cause: "busy".to_string(),
        })
    );
    let (_, actions) = run(with(
        built(),
        vec![Event::Instantiated(CommandInstance::Module), Event::Done, rejected("nul byte")],
    ));
    assert_eq!(
        actions[14],
        DriverAction::Fail(TriggerError::ContextSetup {
            guest_id: "build".to_string(),
            version: WasiVersion::Preview1,
            step: SetupStep::SetArgs,
            cause: "nul byte".to_string(),
        })
    );
}

#[test]
fn component_without_command_entry_point_fails() {
    let (state, actions) = run(with(
        built(),
        vec![Event::Instantiated(CommandInstance::Component), rejected("no wasi:cli/run")],
    ));
    assert_eq!(state, DriverState::Failed);
    assert_eq!(
        actions[13],
        DriverAction::Fail(TriggerError::MissingCallingConvention {
            instance: CommandInstance::Component,
            reason: Some("no wasi:cli/run".to_string()),
        })
    );
}

#[test]
fn module_without_start_export_fails() {
    let (state, actions) = run(with(
        built(),
        vec![
            Event::Instantiated(CommandInstance::Module),
            Event::Done,
            Event::Done,
            Event::Instantiated(CommandInstance::Module),
            Event::Located(false),
        ],
    ));
    assert_eq!(state, DriverState::Failed);
    assert_eq!(
        actions[16],
        DriverAction::Fail(TriggerError::MissingCallingConvention {
            instance: CommandInstance::Module,
            reason: None,
        })
    );
}

#[test]
fn trapping_guest_fails_the_run() {
    let (state, actions) = run(with(
        built(),
        vec![Event::Instantiated(CommandInstance::Component), Event::Done, rejected("trap")],
    ));
    assert_eq!(state, DriverState::Failed);
    assert_eq!(
        actions[14],
        DriverAction::Fail(TriggerError::GuestTrap {
            guest_id: "build".to_string(),
            instance: CommandInstance::Component,
            cause: "trap".to_string(),
        })
    );
    let (state, actions) = run(with(
        built(),
        vec![
            Event::Instantiated(CommandInstance::Module),
            Event::Done,
            Event::Done,
            Event::Instantiated(CommandInstance::Module),
            Event::Located(true),
            rejected("exit 1"),
        ],
    ));
    assert_eq!(state, DriverState::Failed);
    assert_eq!(
        actions[17],
        DriverAction::Fail(TriggerError::GuestTrap {
            guest_id: "build".to_string(),
            instance: CommandInstance::Module,
            cause: "exit 1".to_string(),
        })
    );
}

#[test]
fn run_asks_nothing_after_its_outcome() {
    let (state, actions) = run(with(
        built(),
        vec![
            Event::Instantiated(CommandInstance::Component),
            Event::Done,
            Event::Done,
            Event::Done,
            Event::Begin,
        ],
    ));
    assert_eq!(state, DriverState::Completed);
    assert_eq!(actions.len(), 15);
    assert_eq!(actions.last(), Some(&DriverAction::Finish));
}

#[test]
fn longest_run_has_eighteen_actions() {
    let (_, actions) = run(with(
        built(),
        vec![
            Event::Instantiated(CommandInstance::Module),
            Event::Done,
            Event::Done,
            Event::Instantiated(CommandInstance::Module),
            Event::Located(true),
            Event::Done,
        ],
    ));
    assert_eq!(actions.len(), 18);
}

#[test]
fn first_guest_is_the_one_that_runs() {
    let (_, actions) = run(vec![Event::Begin]);
    assert_eq!(actions, vec![open(WasiVersion::Preview2)]);
}

#[test]
fn driver_accepts_only_the_answer_it_waits_for() {
    assert!(DriverState::Idle.accepts(&Event::Begin));
    assert!(!DriverState::Idle.accepts(&Event::Done));
    let verdicts = [
        DriverState::OpeningContext(WasiVersion::Preview1),
        DriverState::OpeningContext(WasiVersion::Preview2),
        DriverState::InjectingEnv,
        DriverState::RegisteringMount(0),
        DriverState::RegisteringMount(3),
        DriverState::SettingArgs(WasiVersion::Preview1),
        DriverState::SettingArgs(WasiVersion::Preview2),
        DriverState::BindingCommand,
        DriverState::RunningCommand,
        DriverState::RunningStart,
    ];
    for state in verdicts {
        assert!(state.accepts(&Event::Done));
        assert!(state.accepts(&rejected("x")));
        assert!(!state.accepts(&Event::Begin));
        assert!(!state.accepts(&Event::Probed(true)));
        assert!(!state.accepts(&Event::Located(true)));
        assert!(!state.accepts(&Event::Instantiated(CommandInstance::Module)));
    }
    for index in 0..4 {
        assert!(DriverState::ProbingMount(index).accepts(&Event::Probed(true)));
        assert!(DriverState::ProbingMount(index).accepts(&Event::Probed(false)));
        assert!(!DriverState::ProbingMount(index).accepts(&Event::Done));
        assert!(!DriverState::ProbingMount(index).accepts(&rejected("x")));
    }
    assert!(!DriverState::ProbingMount(4).accepts(&Event::Probed(true)));
    assert!(!DriverState::RegisteringMount(4).accepts(&Event::Done));
    let modern = DriverState::Instantiating(WasiVersion::Preview2);
    assert!(modern.accepts(&Event::Instantiated(CommandInstance::Component)));
    assert!(modern.accepts(&Event::Instantiated(CommandInstance::Module)));
    assert!(modern.accepts(&rejected("x")));
    assert!(!modern.accepts(&Event::Done));
    let legacy = DriverState::Instantiating(WasiVersion::Preview1);
    assert!(legacy.accepts(&Event::Instantiated(CommandInstance::Module)));
    assert!(!legacy.accepts(&Event::Instantiated(CommandInstance::Component)));
    assert!(legacy.accepts(&rejected("x")));
    assert!(DriverState::LocatingStart.accepts(&Event::Located(true)));
    assert!(DriverState::LocatingStart.accepts(&Event::Located(false)));
    assert!(!DriverState::LocatingStart.accepts(&Event::Done));
    for state in [DriverState::Completed, DriverState::Failed] {
        assert!(!state.accepts(&Event::Begin));
        assert!(!state.accepts(&Event::Done));
        assert!(!state.accepts(&rejected("x")));
        assert!(!state.accepts(&Event::Probed(true)));
    }
}
