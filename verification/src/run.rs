//! Whole runs of the driver: what it asks for when it is answered by a given
//! sequence of events, and what holds of every such run.

use crate::config::ComponentView;
use crate::driver::{driver_step, DriverActionView, DriverState};
use crate::error::TriggerErrorView;
use crate::event::EventView;
use crate::github::static_mount_pairs;
use crate::guest::WasiVersion;
use vstd::prelude::*;

verus! {

/// What a run asks for, in order, when it starts in `state` and is answered by
/// `events`. It ends with the first event that the state it has reached does
/// not take.
pub open spec fn driver_actions(
    guest: ComponentView,
    args: Seq<Seq<char>>,
    host: Map<Seq<char>, Seq<char>>,
    state: DriverState,
    events: Seq<EventView>,
) -> Seq<DriverActionView>
    decreases events.len(),
{
    if events.len() == 0 || !state.takes(events[0]) {
        Seq::empty()
    } else {
        let (next, action) = driver_step(guest, args, host, state, events[0]);
        seq![action] + driver_actions(guest, args, host, next, events.drop_first())
    }
}

/// The most actions that a run can still ask for from `state`.
pub open spec fn remaining(state: DriverState) -> nat {
    match state {
        DriverState::Idle => 18,
        DriverState::OpeningContext(WasiVersion::Preview2) => 17,
        DriverState::InjectingEnv => 16,
        DriverState::ProbingMount(index) => if index < 4 {
            (15 - index) as nat
        } else {
            0
        },
        DriverState::RegisteringMount(index) => if index < 4 {
            (11 - index) as nat
        } else {
            0
        },
        DriverState::SettingArgs(WasiVersion::Preview2) => 7,
        DriverState::Instantiating(WasiVersion::Preview2) => 6,
        DriverState::OpeningContext(WasiVersion::Preview1) => 5,
        DriverState::SettingArgs(WasiVersion::Preview1) => 4,
        DriverState::Instantiating(WasiVersion::Preview1) => 3,
        DriverState::BindingCommand => 2,
        DriverState::RunningCommand => 1,
        DriverState::LocatingStart => 2,
        DriverState::RunningStart => 1,
        DriverState::Completed | DriverState::Failed => 0,
    }
}

/// A run asks for no more than one action per event, and for no more than
/// `remaining` says: nothing is tried again.
pub proof fn lemma_run_is_bounded(
    guest: ComponentView,
    args: Seq<Seq<char>>,
    host: Map<Seq<char>, Seq<char>>,
    state: DriverState,
    events: Seq<EventView>,
)
    ensures
        driver_actions(guest, args, host, state, events).len() <= events.len(),
        driver_actions(guest, args, host, state, events).len() <= remaining(state),
    decreases events.len(),
{
    if events.len() == 0 || !state.takes(events[0]) {
    } else {
        let (next, action) = driver_step(guest, args, host, state, events[0]);
        assert(remaining(next) < remaining(state));
        lemma_run_is_bounded(guest, args, host, next, events.drop_first());
    }
}

/// A run that has reported its outcome asks for nothing more: `Finish` or
/// `Fail` is the last action of the run in which it occurs.
pub proof fn lemma_outcome_ends_the_run(
    guest: ComponentView,
    args: Seq<Seq<char>>,
    host: Map<Seq<char>, Seq<char>>,
    state: DriverState,
    events: Seq<EventView>,
    at: int,
)
    requires
        0 <= at < driver_actions(guest, args, host, state, events).len(),
    ensures
        ({
            let actions = driver_actions(guest, args, host, state, events);
            (actions[at] is Finish || actions[at] is Fail) ==> at == actions.len() - 1
        }),
    decreases events.len(),
{
    let (next, action) = driver_step(guest, args, host, state, events[0]);
    let rest = driver_actions(guest, args, host, next, events.drop_first());
    if at == 0 {
        if action is Finish || action is Fail {
            assert(next.is_final());
            assert(rest.len() == 0);
        }
    } else {
        lemma_outcome_ends_the_run(guest, args, host, next, events.drop_first(), at - 1);
        assert((seq![action] + rest)[at] == rest[at - 1]);
    }
}

/// Whether a host directory can still be probed in a run that stands at `state`.
pub open spec fn before_mounting(state: DriverState) -> bool {
    match state {
        DriverState::Idle => true,
        DriverState::OpeningContext(WasiVersion::Preview2) => true,
        DriverState::InjectingEnv => true,
        DriverState::ProbingMount(_) => true,
        _ => false,
    }
}

/// How many events after `state` the answer to the first probe arrives; for a
/// probing state, how many probes have been answered, negated.
pub open spec fn first_probe_answer(state: DriverState) -> int {
    match state {
        DriverState::Idle => 3,
        DriverState::OpeningContext(_) => 2,
        DriverState::InjectingEnv => 1,
        DriverState::ProbingMount(index) => -(index as int),
        _ => 0,
    }
}

proof fn lemma_no_probe_once_mounting(
    guest: ComponentView,
    args: Seq<Seq<char>>,
    host: Map<Seq<char>, Seq<char>>,
    state: DriverState,
    events: Seq<EventView>,
    at: int,
)
    requires
        !before_mounting(state),
        0 <= at < driver_actions(guest, args, host, state, events).len(),
    ensures
        at < events.len(),
        !(events[at] is Probed),
    decreases events.len(),
{
    let (next, action) = driver_step(guest, args, host, state, events[0]);
    if at > 0 {
        assert(!before_mounting(next));
        lemma_no_probe_once_mounting(guest, args, host, next, events.drop_first(), at - 1);
        assert(events.drop_first()[at - 1] == events[at]);
    }
}

proof fn lemma_missing_mount_from(
    guest: ComponentView,
    args: Seq<Seq<char>>,
    host: Map<Seq<char>, Seq<char>>,
    state: DriverState,
    events: Seq<EventView>,
    at: int,
)
    requires
        before_mounting(state),
        0 <= at < driver_actions(guest, args, host, state, events).len(),
        at < events.len(),
        events[at] == EventView::Probed(false),
    ensures
        ({
            let actions = driver_actions(guest, args, host, state, events);
            let mount = at - first_probe_answer(state);
            &&& 0 <= mount < static_mount_pairs().len()
            &&& actions.len() == at + 1
            &&& actions[at] == DriverActionView::Fail(
                TriggerErrorView::MountMissing { host_path: static_mount_pairs()[mount].0 },
            )
            &&& forall|earlier: int|
                0 <= earlier < actions.len() ==> !(#[trigger] actions[earlier] is Instantiate)
        }),
    decreases events.len(),
{
    let (next, action) = driver_step(guest, args, host, state, events[0]);
    let rest = driver_actions(guest, args, host, next, events.drop_first());
    let actions = driver_actions(guest, args, host, state, events);
    assert(actions == seq![action] + rest);
    if at == 0 {
        assert(next == DriverState::Failed);
        assert(rest.len() == 0);
    } else {
        assert(rest.len() > at - 1);
        assert(events.drop_first()[at - 1] == events[at]);
        if before_mounting(next) {
            lemma_missing_mount_from(guest, args, host, next, events.drop_first(), at - 1);
            assert(first_probe_answer(next) == first_probe_answer(state) - 1);
            assert forall|earlier: int| 0 <= earlier < actions.len() implies !(
            #[trigger] actions[earlier] is Instantiate) by {
                if earlier > 0 {
                    assert(actions[earlier] == rest[earlier - 1]);
                }
            }
        } else {
            lemma_no_probe_once_mounting(guest, args, host, next, events.drop_first(), at - 1);
        }
    }
}

/// A host directory that is found missing ends the run at once: the answer to
/// the probe is the last event taken, the run fails by naming that directory,
/// and no instantiation has been or will be asked for.
pub proof fn lemma_missing_mount_stops_the_run(
    guest: ComponentView,
    args: Seq<Seq<char>>,
    host: Map<Seq<char>, Seq<char>>,
    events: Seq<EventView>,
    at: int,
)
    requires
        0 <= at < driver_actions(guest, args, host, DriverState::Idle, events).len(),
        at < events.len(),
        events[at] == EventView::Probed(false),
    ensures
        ({
            let actions = driver_actions(guest, args, host, DriverState::Idle, events);
            &&& 3 <= at < 3 + static_mount_pairs().len()
            &&& actions.len() == at + 1
            &&& actions[at] == DriverActionView::Fail(
                TriggerErrorView::MountMissing { host_path: static_mount_pairs()[at - 3].0 },
            )
            &&& forall|earlier: int|
                0 <= earlier < actions.len() ==> !(#[trigger] actions[earlier] is Instantiate)
        }),
{
    lemma_missing_mount_from(guest, args, host, DriverState::Idle, events, at);
}

/// Picks the requests to open a context.
pub open spec fn opens_context() -> spec_fn(DriverActionView) -> bool {
    |action: DriverActionView| action is OpenContext
}

/// The request to open the context of `guest` for `version`.
pub open spec fn open_context(guest: ComponentView, version: WasiVersion) -> DriverActionView {
    DriverActionView::OpenContext { guest_id: guest.id, version }
}

/// The contexts that a run standing at `state` has asked for, oldest first.
pub open spec fn contexts_before(guest: ComponentView, state: DriverState) -> Seq<
    DriverActionView,
> {
    match state {
        DriverState::Idle | DriverState::Completed | DriverState::Failed => Seq::empty(),
        DriverState::OpeningContext(WasiVersion::Preview1)
        | DriverState::SettingArgs(WasiVersion::Preview1)
        | DriverState::Instantiating(WasiVersion::Preview1)
        | DriverState::LocatingStart
        | DriverState::RunningStart => seq![
            open_context(guest, WasiVersion::Preview2),
            open_context(guest, WasiVersion::Preview1),
        ],
        _ => seq![open_context(guest, WasiVersion::Preview2)],
    }
}

proof fn lemma_contexts_from(
    guest: ComponentView,
    args: Seq<Seq<char>>,
    host: Map<Seq<char>, Seq<char>>,
    state: DriverState,
    events: Seq<EventView>,
    at: int,
)
    requires
        !state.is_final(),
        0 <= at < driver_actions(guest, args, host, state, events).len(),
    ensures
        ({
            let actions = driver_actions(guest, args, host, state, events);
            let opened = contexts_before(guest, state) + actions.take(at).filter(opens_context());
            &&& actions[at] is InvokeCommand ==> opened == seq![
                open_context(guest, WasiVersion::Preview2),
            ]
            &&& actions[at] is InvokeStart ==> opened == seq![
                open_context(guest, WasiVersion::Preview2),
                open_context(guest, WasiVersion::Preview1),
            ]
        }),
    decreases events.len(),
{
    let (next, action) = driver_step(guest, args, host, state, events[0]);
    let rest = driver_actions(guest, args, host, next, events.drop_first());
    let actions = driver_actions(guest, args, host, state, events);
    assert(actions == seq![action] + rest);
    if at == 0 {
        assert(actions.take(0) =~= Seq::<DriverActionView>::empty());
        assert(Seq::<DriverActionView>::empty().filter(opens_context()) =~= Seq::<
            DriverActionView,
        >::empty()) by {
            reveal(Seq::filter);
        }
        assert(contexts_before(guest, state) + Seq::<DriverActionView>::empty()
            =~= contexts_before(guest, state));
    } else {
        assert(!next.is_final()) by {
            if next.is_final() {
                assert(rest.len() == 0);
            }
        }
        lemma_contexts_from(guest, args, host, next, events.drop_first(), at - 1);
        let earlier = rest.take(at - 1);
        assert(actions.take(at) =~= seq![action] + earlier);
        earlier.lemma_filter_prepend(action, opens_context());
        let step = if action is OpenContext {
            seq![action]
        } else {
            Seq::empty()
        };
        assert(contexts_before(guest, next) =~= contexts_before(guest, state) + step);
        assert(contexts_before(guest, state) + (step + earlier.filter(opens_context()))
            =~= contexts_before(guest, next) + earlier.filter(opens_context()));
        assert(actions[at] == rest[at - 1]);
    }
}

/// What has been built when a guest's entry point is invoked.
///
/// A component's command entry point is invoked after exactly one context was
/// opened, for the modern ABI. A module's start export is invoked after
/// exactly two were opened: the modern one, which is given up, and then the
/// legacy one in which the module runs.
pub proof fn lemma_contexts_opened_before_entry(
    guest: ComponentView,
    args: Seq<Seq<char>>,
    host: Map<Seq<char>, Seq<char>>,
    events: Seq<EventView>,
    at: int,
)
    requires
        0 <= at < driver_actions(guest, args, host, DriverState::Idle, events).len(),
    ensures
        ({
            let actions = driver_actions(guest, args, host, DriverState::Idle, events);
            let opened = actions.take(at).filter(opens_context());
            &&& actions[at] is InvokeCommand ==> opened == seq![
                open_context(guest, WasiVersion::Preview2),
            ]
            &&& actions[at] is InvokeStart ==> opened == seq![
                open_context(guest, WasiVersion::Preview2),
                open_context(guest, WasiVersion::Preview1),
            ]
        }),
{
    lemma_contexts_from(guest, args, host, DriverState::Idle, events, at);
    let actions = driver_actions(guest, args, host, DriverState::Idle, events);
    assert(Seq::<DriverActionView>::empty() + actions.take(at).filter(opens_context())
        =~= actions.take(at).filter(opens_context()));
}

} // verus!
