//! What is configured for a guest and what a caller asks of one run.

use vstd::prelude::*;
use vstd::string::*;

verus! {

/// One configured guest: its id and the host variables its author wants forwarded.
#[derive(Clone, Debug, PartialEq, Eq)]
pub struct Component {
    pub id: String,
    pub env: Vec<String>,
}

/// The mathematical form of a [`Component`].
pub struct ComponentView {
    pub id: Seq<char>,
    pub env: Seq<Seq<char>>,
}

impl View for Component {
    type V = ComponentView;

    open spec fn view(&self) -> ComponentView {
        ComponentView { id: self.id@, env: self.env.deep_view() }
    }
}

impl Default for Component {
    fn default() -> (component: Component)
        ensures
            component@ == (ComponentView { id: Seq::empty(), env: Seq::empty() }),
    {
        let component = Component { id: String::new(), env: Vec::new() };
        assert(component.env.deep_view() =~= Seq::<Seq<char>>::empty());
        component
    }
}

/// The trigger's section of the application manifest for one guest.
#[derive(Clone, Debug, PartialEq, Eq)]
pub struct CommandTriggerConfig {
    pub component: String,
    pub env: Vec<String>,
}

/// The mathematical form of a [`CommandTriggerConfig`].
pub struct CommandTriggerConfigView {
    pub component: Seq<char>,
    pub env: Seq<Seq<char>>,
}

impl View for CommandTriggerConfig {
    type V = CommandTriggerConfigView;

    open spec fn view(&self) -> CommandTriggerConfigView {
        CommandTriggerConfigView { component: self.component@, env: self.env.deep_view() }
    }
}

impl Default for CommandTriggerConfig {
    fn default() -> (config: CommandTriggerConfig)
        ensures
            config@ == (CommandTriggerConfigView { component: Seq::empty(), env: Seq::empty() }),
    {
        let config = CommandTriggerConfig { component: String::new(), env: Vec::new() };
        assert(config.env.deep_view() =~= Seq::<Seq<char>>::empty());
        config
    }
}

impl CommandTriggerConfigView {
    /// The guest that this section configures.
    pub open spec fn component(self) -> ComponentView {
        ComponentView { id: self.component, env: self.env }
    }
}

/// A copy of a list of strings.
pub(crate) fn copy_strings(list: &Vec<String>) -> (copy: Vec<String>)
    ensures
        copy.deep_view() == list.deep_view(),
{
    let mut copy: Vec<String> = Vec::new();
    let mut at: usize = 0;
    while at < list.len()
        invariant
            at <= list.len(),
            copy.deep_view() == list.deep_view().take(at as int),
        decreases list.len() - at,
    {
        let ghost before = copy.deep_view();
        copy.push(list[at].clone());
        assert(copy.deep_view() =~= before.push(list[at as int]@));
        assert(list.deep_view().take(at as int + 1) =~= before.push(list[at as int]@));
        at = at + 1;
    }
    assert(list.deep_view().take(list.len() as int) =~= list.deep_view());
    copy
}

impl CommandTriggerConfig {
    /// The guest that this section configures.
    pub fn to_component(&self) -> (component: Component)
        ensures
            component@ == self@.component(),
    {
        Component { id: self.component.clone(), env: copy_strings(&self.env) }
    }
}

/// What the caller passes on to the guest.
#[derive(Debug)]
pub struct CliArgs {
    pub guest_args: Vec<String>,
}

/// The arguments that a guest is started with: its id, then what the caller passed.
pub open spec fn guest_argv(component_id: Seq<char>, guest_args: Seq<Seq<char>>) -> Seq<
    Seq<char>,
> {
    seq![component_id] + guest_args
}

impl View for CliArgs {
    type V = Seq<Seq<char>>;

    open spec fn view(&self) -> Seq<Seq<char>> {
        self.guest_args.deep_view()
    }
}

impl CliArgs {
    /// The argument list for the guest `component_id`: the id stands where a
    /// native process finds its command name.
    pub fn apply_args_to_store(&self, component_id: &str) -> (argv: Vec<String>)
        ensures
            argv.deep_view() == guest_argv(component_id@, self@),
    {
        let mut argv: Vec<String> = Vec::new();
        argv.push(String::from_str(component_id));
        assert(argv.deep_view() =~= seq![component_id@]);
        let mut at: usize = 0;
        while at < self.guest_args.len()
            invariant
                at <= self.guest_args.len(),
                argv.deep_view() == seq![component_id@] + self@.take(at as int),
            decreases self.guest_args.len() - at,
        {
            let ghost before = argv.deep_view();
            argv.push(self.guest_args[at].clone());
            assert(argv.deep_view() =~= before.push(self@[at as int]));
            assert(seq![component_id@] + self@.take(at as int + 1) =~= before.push(
                self@[at as int],
            ));
            at = at + 1;
        }
        assert(self@.take(self.guest_args.len() as int) =~= self@);
        argv
    }
}

} // verus!
