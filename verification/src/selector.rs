//! Deciding which ABI a guest artifact speaks.
//!
//! The artifact is offered to the module loader first. Only when that loader
//! refuses it is the component loader asked; when both refuse, the failure
//! keeps both reasons.

use crate::error::{TriggerError, TriggerErrorView};
use crate::event::{Event, EventView};
use crate::guest::{CommandInstancePre, WasiVersion};
use vstd::pervasive::unreached;
use vstd::prelude::*;
use vstd::string::*;

verus! {

/// How far the classification of one artifact has come.
#[derive(Debug, PartialEq, Eq)]
pub enum SelectorState {
    /// Nothing has been asked of the engine yet.
    Idle,
    /// The module loader has the artifact.
    LoadingModule,
    /// The loaded module's imports are being checked.
    PreparingModule,
    /// The module loader refused; the component loader has the artifact.
    LoadingComponent { module_error: String },
    /// The loaded component is being prepared.
    PreparingComponent,
    /// A handle was produced.
    Selected,
    /// The classification failed.
    Failed,
}

/// The mathematical form of a [`SelectorState`].
pub enum SelectorStateView {
    Idle,
    LoadingModule,
    PreparingModule,
    LoadingComponent { module_error: Seq<char> },
    PreparingComponent,
    Selected,
    Failed,
}

impl View for SelectorState {
    type V = SelectorStateView;

    open spec fn view(&self) -> SelectorStateView {
        match *self {
            SelectorState::Idle => SelectorStateView::Idle,
            SelectorState::LoadingModule => SelectorStateView::LoadingModule,
            SelectorState::PreparingModule => SelectorStateView::PreparingModule,
            SelectorState::LoadingComponent { module_error } => {
                SelectorStateView::LoadingComponent { module_error: module_error@ }
            },
            SelectorState::PreparingComponent => SelectorStateView::PreparingComponent,
            SelectorState::Selected => SelectorStateView::Selected,
            SelectorState::Failed => SelectorStateView::Failed,
        }
    }
}

/// What the caller is to do next for the classification.
#[derive(Debug, PartialEq, Eq)]
pub enum SelectorAction {
    /// Load the artifact as a module.
    LoadModule,
    /// Prepare the loaded module against the legacy imports alone.
    PrepareModule,
    /// Load the artifact as a component.
    LoadComponent,
    /// Prepare the loaded component.
    PrepareComponent,
    /// Stop: the artifact is a guest of this form.
    Select(CommandInstancePre),
    /// Stop: the artifact cannot be run.
    Fail(TriggerError),
}

/// The mathematical form of a [`SelectorAction`].
pub enum SelectorActionView {
    LoadModule,
    PrepareModule,
    LoadComponent,
    PrepareComponent,
    Select(CommandInstancePre),
    Fail(TriggerErrorView),
}

impl View for SelectorAction {
    type V = SelectorActionView;

    open spec fn view(&self) -> SelectorActionView {
        match *self {
            SelectorAction::LoadModule => SelectorActionView::LoadModule,
            SelectorAction::PrepareModule => SelectorActionView::PrepareModule,
            SelectorAction::LoadComponent => SelectorActionView::LoadComponent,
            SelectorAction::PrepareComponent => SelectorActionView::PrepareComponent,
            SelectorAction::Select(pre) => SelectorActionView::Select(pre),
            SelectorAction::Fail(error) => SelectorActionView::Fail(error@),
        }
    }
}

impl SelectorStateView {
    /// Whether `event` answers what was last asked in this state.
    pub open spec fn takes(self, event: EventView) -> bool {
        match self {
            SelectorStateView::Idle => event is Begin,
            SelectorStateView::LoadingModule
            | SelectorStateView::PreparingModule
            | SelectorStateView::LoadingComponent { .. }
            | SelectorStateView::PreparingComponent => event.is_verdict(),
            SelectorStateView::Selected | SelectorStateView::Failed => false,
        }
    }

    /// Whether the classification has ended.
    pub open spec fn is_final(self) -> bool {
        self is Selected || self is Failed
    }
}

/// The classification's transition: the state after `event`, and what to do next.
/// It is defined where `state` takes `event`.
pub open spec fn selector_step(
    component_id: Seq<char>,
    state: SelectorStateView,
    event: EventView,
) -> (SelectorStateView, SelectorActionView) {
    match (state, event) {
        (SelectorStateView::Idle, EventView::Begin) => (
            SelectorStateView::LoadingModule,
            SelectorActionView::LoadModule,
        ),
        (SelectorStateView::LoadingModule, EventView::Done) => (
            SelectorStateView::PreparingModule,
            SelectorActionView::PrepareModule,
        ),
        (SelectorStateView::LoadingModule, EventView::Rejected(module_error)) => (
            SelectorStateView::LoadingComponent { module_error },
            SelectorActionView::LoadComponent,
        ),
        (SelectorStateView::PreparingModule, EventView::Done) => (
            SelectorStateView::Selected,
            SelectorActionView::Select(CommandInstancePre::Module),
        ),
        (SelectorStateView::PreparingModule, EventView::Rejected(cause)) => (
            SelectorStateView::Failed,
            SelectorActionView::Fail(TriggerErrorView::UnsupportedImports { cause }),
        ),
        (SelectorStateView::LoadingComponent { .. }, EventView::Done) => (
            SelectorStateView::PreparingComponent,
            SelectorActionView::PrepareComponent,
        ),
        (
            SelectorStateView::LoadingComponent { module_error },
            EventView::Rejected(component_error),
        ) => (
            SelectorStateView::Failed,
            SelectorActionView::Fail(
                TriggerErrorView::Classification { module_error, component_error },
            ),
        ),
        (SelectorStateView::PreparingComponent, EventView::Done) => (
            SelectorStateView::Selected,
            SelectorActionView::Select(CommandInstancePre::Component),
        ),
        (SelectorStateView::PreparingComponent, EventView::Rejected(cause)) => (
            SelectorStateView::Failed,
            SelectorActionView::Fail(
                TriggerErrorView::Instantiation {
                    guest_id: component_id,
                    version: WasiVersion::Preview2,
                    cause,
                },
            ),
        ),
        _ => arbitrary(),
    }
}

impl SelectorState {
    /// Whether `event` answers what was last asked in this state.
    pub fn accepts(&self, event: &Event) -> (accepted: bool)
        ensures
            accepted == self@.takes(event@),
    {
        match self {
            SelectorState::Idle => match event {
                Event::Begin => true,
                _ => false,
            },
            SelectorState::LoadingModule
            | SelectorState::PreparingModule
            | SelectorState::LoadingComponent { .. }
            | SelectorState::PreparingComponent => match event {
                Event::Done => true,
                Event::Rejected(_) => true,
                _ => false,
            },
            SelectorState::Selected | SelectorState::Failed => false,
        }
    }
}

impl CommandInstancePre {
    /// One step of classifying the artifact of the guest `component_id`: takes
    /// the engine's answer to the last action and says what to do next.
    ///
    /// The module loader is asked first, and the component loader only once the
    /// module loader has refused.
    pub fn instantiate_pre(component_id: &str, state: SelectorState, event: Event) -> (next: (
        SelectorState,
        SelectorAction,
    ))
        requires
            state@.takes(event@),
        ensures
            (next.0@, next.1@) == selector_step(component_id@, state@, event@),
    {
        match state {
            SelectorState::Idle => (SelectorState::LoadingModule, SelectorAction::LoadModule),
            SelectorState::LoadingModule => match event {
                Event::Done => (SelectorState::PreparingModule, SelectorAction::PrepareModule),
                Event::Rejected(module_error) => (
                    SelectorState::LoadingComponent { module_error },
                    SelectorAction::LoadComponent,
                ),
                _ => unreached(),
            },
            SelectorState::PreparingModule => match event {
                Event::Done => (
                    SelectorState::Selected,
                    SelectorAction::Select(CommandInstancePre::Module),
                ),
                Event::Rejected(cause) => (
                    SelectorState::Failed,
                    SelectorAction::Fail(TriggerError::UnsupportedImports { cause }),
                ),
                _ => unreached(),
            },
            SelectorState::LoadingComponent { module_error } => match event {
                Event::Done => (
                    SelectorState::PreparingComponent,
                    SelectorAction::PrepareComponent,
                ),
                Event::Rejected(component_error) => (
                    SelectorState::Failed,
                    SelectorAction::Fail(
                        TriggerError::Classification { module_error, component_error },
                    ),
                ),
                _ => unreached(),
            },
            SelectorState::PreparingComponent => match event {
                Event::Done => (
                    SelectorState::Selected,
                    SelectorAction::Select(CommandInstancePre::Component),
                ),
                Event::Rejected(cause) => (
                    SelectorState::Failed,
                    SelectorAction::Fail(
                        TriggerError::Instantiation {
                            guest_id: String::from_str(component_id),
                            version: WasiVersion::Preview2,
                            cause,
                        },
                    ),
                ),
                _ => unreached(),
            },
            SelectorState::Selected | SelectorState::Failed => unreached(),
        }
    }
}

/// What a classification asks for, in order, when it starts in `state` and is
/// answered by `events`. It ends with the first event that the state it has
/// reached does not take.
pub open spec fn selector_actions(
    component_id: Seq<char>,
    state: SelectorStateView,
    events: Seq<EventView>,
) -> Seq<SelectorActionView>
    decreases events.len(),
{
    if events.len() == 0 || !state.takes(events[0]) {
        Seq::empty()
    } else {
        let (next, action) = selector_step(component_id, state, events[0]);
        seq![action] + selector_actions(component_id, next, events.drop_first())
    }
}

/// Once the module loader has taken the artifact, nothing asks for the
/// component loader any more.
proof fn lemma_after_module_load(
    component_id: Seq<char>,
    state: SelectorStateView,
    events: Seq<EventView>,
)
    requires
        state is PreparingModule || state.is_final(),
    ensures
        !selector_actions(component_id, state, events).contains(SelectorActionView::LoadComponent),
    decreases events.len(),
{
    if events.len() == 0 || !state.takes(events[0]) {
    } else {
        let (next, action) = selector_step(component_id, state, events[0]);
        lemma_after_module_load(component_id, next, events.drop_first());
        let rest = selector_actions(component_id, next, events.drop_first());
        assert forall|at: int| 0 <= at < (seq![action] + rest).len() implies (seq![action]
            + rest)[at] != SelectorActionView::LoadComponent by {
            if at > 0 {
                assert(rest[at - 1] == (seq![action] + rest)[at]);
                assert(rest.contains(rest[at - 1]));
            }
        }
    }
}

/// An artifact that the module loader accepts is never offered to the
/// component loader, whatever the engine answers afterwards.
pub proof fn lemma_module_skips_component_loader(component_id: Seq<char>, events: Seq<EventView>)
    requires
        events.len() >= 2,
        events[0] == EventView::Begin,
        events[1] == EventView::Done,
    ensures
        !selector_actions(component_id, SelectorStateView::Idle, events).contains(
            SelectorActionView::LoadComponent,
        ),
{
    let after_begin = events.drop_first();
    let after_load = after_begin.drop_first();
    lemma_after_module_load(component_id, SelectorStateView::PreparingModule, after_load);
    let tail = selector_actions(component_id, SelectorStateView::PreparingModule, after_load);
    let all = selector_actions(component_id, SelectorStateView::Idle, events);
    assert(after_begin[0] == events[1]);
    assert(selector_actions(component_id, SelectorStateView::LoadingModule, after_begin) == seq![
        SelectorActionView::PrepareModule,
    ] + tail);
    assert(all == seq![SelectorActionView::LoadModule] + (seq![SelectorActionView::PrepareModule]
        + tail));
    assert forall|at: int| 0 <= at < all.len() implies all[at]
        != SelectorActionView::LoadComponent by {
        if at >= 2 {
            assert(tail[at - 2] == all[at]);
            assert(tail.contains(tail[at - 2]));
        }
    }
}

/// An artifact that both loaders refuse fails as a classification error that
/// holds the module loader's message and the component loader's message, and
/// nothing is asked of the engine after that.
pub proof fn lemma_double_refusal_keeps_both_messages(
    component_id: Seq<char>,
    module_error: Seq<char>,
    component_error: Seq<char>,
    later: Seq<EventView>,
)
    ensures
        selector_actions(
            component_id,
            SelectorStateView::Idle,
            seq![
                EventView::Begin,
                EventView::Rejected(module_error),
                EventView::Rejected(component_error),
            ] + later,
        ) == seq![
            SelectorActionView::LoadModule,
            SelectorActionView::LoadComponent,
            SelectorActionView::Fail(
                TriggerErrorView::Classification { module_error, component_error },
            ),
        ],
{
    let events = seq![
        EventView::Begin,
        EventView::Rejected(module_error),
        EventView::Rejected(component_error),
    ] + later;
    let second = events.drop_first();
    let third = second.drop_first();
    let rest = third.drop_first();
    assert(second[0] == events[1]);
    assert(third[0] == events[2]);
    assert(selector_actions(component_id, SelectorStateView::Failed, rest) == Seq::<
        SelectorActionView,
    >::empty());
    let failure = SelectorActionView::Fail(
        TriggerErrorView::Classification { module_error, component_error },
    );
    assert(selector_actions(
        component_id,
        SelectorStateView::LoadingComponent { module_error },
        third,
    ) =~= seq![failure]);
    assert(selector_actions(component_id, SelectorStateView::LoadingModule, second) =~= seq![
        SelectorActionView::LoadComponent,
        failure,
    ]);
    assert(selector_actions(component_id, SelectorStateView::Idle, events) =~= seq![
        SelectorActionView::LoadModule,
        SelectorActionView::LoadComponent,
        failure,
    ]);
}

/// A module that loads but whose imports the engine refuses fails as an
/// unsupported-imports error with the engine's message, and nothing is asked
/// of the engine after that.
pub proof fn lemma_refused_imports_fail_the_module(
    component_id: Seq<char>,
    cause: Seq<char>,
    later: Seq<EventView>,
)
    ensures
        selector_actions(
            component_id,
            SelectorStateView::Idle,
            seq![EventView::Begin, EventView::Done, EventView::Rejected(cause)] + later,
        ) == seq![
            SelectorActionView::LoadModule,
            SelectorActionView::PrepareModule,
            SelectorActionView::Fail(TriggerErrorView::UnsupportedImports { cause }),
        ],
{
    let events = seq![EventView::Begin, EventView::Done, EventView::Rejected(cause)] + later;
    let second = events.drop_first();
    let third = second.drop_first();
    let rest = third.drop_first();
    assert(second[0] == events[1]);
    assert(third[0] == events[2]);
    assert(selector_actions(component_id, SelectorStateView::Failed, rest) == Seq::<
        SelectorActionView,
    >::empty());
    let failure = SelectorActionView::Fail(TriggerErrorView::UnsupportedImports { cause });
    assert(selector_actions(component_id, SelectorStateView::PreparingModule, third) =~= seq![
        failure,
    ]);
    assert(selector_actions(component_id, SelectorStateView::LoadingModule, second) =~= seq![
        SelectorActionView::PrepareModule,
        failure,
    ]);
    assert(selector_actions(component_id, SelectorStateView::Idle, events) =~= seq![
        SelectorActionView::LoadModule,
        SelectorActionView::PrepareModule,
        failure,
    ]);
}

} // verus!
