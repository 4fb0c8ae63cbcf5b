//! The invocation protocol: what one invocation does, step by step.
//!
//! Instantiating the component and calling its entry point suspend, so
//! they are not done here. An [`Invocation`] decides: it is told what
//! happened, as an [`Event`], and answers with what is to be done next, as
//! an [`Action`]. Whoever drives it performs the action and comes back
//! with the event. The first step, making the store, is the handle's.

use crate::error::WasmError;
use crate::error::WasmErrorView;
use vstd::prelude::*;
use vstd::string::StringExecFns;

verus! {

/// The name of the function that a plugin exports as its entry point.
pub fn entry_point() -> (name: &'static str)
    ensures
        name@ == "run"@,
{
    "run"
}

/// How many values the entry point returns.
pub const RESULT_SLOTS: usize = 1;

/// Where an invocation stands.
#[derive(Debug, Clone, Copy, PartialEq, Eq, Structural)]
pub enum Phase {
    /// The store with its fresh context is being made.
    AwaitingStore,
    /// The component is being instantiated.
    AwaitingInstance,
    /// The entry point is being looked up.
    AwaitingExport,
    /// The entry point is running.
    AwaitingReturn,
    /// The invocation is over.
    Finished,
}

/// What happened to the action that was asked for last.
#[derive(Debug, Clone, PartialEq, Eq)]
pub enum Event {
    /// The store and its context are there.
    StoreReady,
    /// The context could not be built.
    ContextFailed(String),
    /// The component is instantiated.
    Instantiated,
    /// Instantiation failed: an import is not registered, or start-up trapped.
    InstantiateFailed(String),
    /// The instance exports the entry point.
    ExportFound,
    /// The instance exports no function of that name.
    ExportMissing,
    /// The call returned these values, each as a text.
    Returned(Vec<String>),
    /// The call failed.
    CallFailed(String),
}

/// An [`Event`] with its texts as sequences of characters.
pub enum EventView {
    StoreReady,
    ContextFailed(Seq<char>),
    Instantiated,
    InstantiateFailed(Seq<char>),
    ExportFound,
    ExportMissing,
    Returned(Seq<Seq<char>>),
    CallFailed(Seq<char>),
}

impl View for Event {
    type V = EventView;

    open spec fn view(&self) -> EventView {
        match self {
            Event::StoreReady => EventView::StoreReady,
            Event::ContextFailed(cause) => EventView::ContextFailed(cause@),
            Event::Instantiated => EventView::Instantiated,
            Event::InstantiateFailed(cause) => EventView::InstantiateFailed(cause@),
            Event::ExportFound => EventView::ExportFound,
            Event::ExportMissing => EventView::ExportMissing,
            Event::Returned(values) => EventView::Returned(values.deep_view()),
            Event::CallFailed(cause) => EventView::CallFailed(cause@),
        }
    }
}

/// What is to be done next.
#[derive(Debug, PartialEq, Eq)]
pub enum Action {
    /// Instantiate the component in that store.
    Instantiate,
    /// Look up the exported function of this name.
    ResolveExport { name: String },
    /// Call that function with `arg` as its one argument, a string, and
    /// with room for `result_slots` results.
    Call { name: String, arg: String, result_slots: usize },
    /// Drop the store and hand this result to the caller.
    Finish(Result<String, WasmError>),
}

/// An [`Action`] with its texts as sequences of characters.
pub enum ActionView {
    Instantiate,
    ResolveExport { name: Seq<char> },
    Call { name: Seq<char>, arg: Seq<char>, result_slots: nat },
    Finish(Result<Seq<char>, WasmErrorView>),
}

impl View for Action {
    type V = ActionView;

    open spec fn view(&self) -> ActionView {
        match self {
            Action::Instantiate => ActionView::Instantiate,
            Action::ResolveExport { name } => ActionView::ResolveExport { name: name@ },
            Action::Call { name, arg, result_slots } => ActionView::Call {
                name: name@,
                arg: arg@,
                result_slots: *result_slots as nat,
            },
            Action::Finish(Ok(text)) => ActionView::Finish(Ok(text@)),
            Action::Finish(Err(error)) => ActionView::Finish(Err(error@)),
        }
    }
}

/// One invocation: the argument and the phase.
#[derive(Debug)]
pub struct Invocation {
    arg: String,
    phase: Phase,
}

/// An [`Invocation`] as a plain value.
pub struct InvocationView {
    pub arg: Seq<char>,
    pub phase: Phase,
}

impl View for Invocation {
    type V = InvocationView;

    closed spec fn view(&self) -> InvocationView {
        InvocationView { arg: self.arg@, phase: self.phase }
    }
}

/// The values that a call returned, as one text: each value's text, with
/// a comma and a blank between two of them. One value is its own text.
pub open spec fn joined(values: Seq<Seq<char>>) -> Seq<char>
    decreases values.len(),
{
    if values.len() == 0 {
        Seq::empty()
    } else if values.len() == 1 {
        values[0]
    } else {
        joined(values.drop_last()) + ", "@ + values.last()
    }
}

/// The state that an invocation of `arg` starts in.
pub open spec fn started(arg: Seq<char>) -> InvocationView {
    InvocationView { arg, phase: Phase::AwaitingStore }
}

/// The step that `event` makes `state` take: the state afterwards, and the
/// action to perform. An event that the phase does not wait for changes
/// nothing and asks for nothing.
pub open spec fn next(state: InvocationView, event: EventView) -> (
    InvocationView,
    Option<ActionView>,
) {
    let over = InvocationView { arg: state.arg, phase: Phase::Finished };
    match (state.phase, event) {
        (Phase::AwaitingStore, EventView::StoreReady) => (
            InvocationView { arg: state.arg, phase: Phase::AwaitingInstance },
            Some(ActionView::Instantiate),
        ),
        (Phase::AwaitingStore, EventView::ContextFailed(cause)) => (
            over,
            Some(ActionView::Finish(Err(WasmErrorView::ContextError(cause)))),
        ),
        (Phase::AwaitingInstance, EventView::Instantiated) => (
            InvocationView { arg: state.arg, phase: Phase::AwaitingExport },
            Some(ActionView::ResolveExport { name: "run"@ }),
        ),
        (Phase::AwaitingInstance, EventView::InstantiateFailed(cause)) => (
            over,
            Some(ActionView::Finish(Err(WasmErrorView::InstantiateError(cause)))),
        ),
        (Phase::AwaitingExport, EventView::ExportFound) => (
            InvocationView { arg: state.arg, phase: Phase::AwaitingReturn },
            Some(ActionView::Call { name: "run"@, arg: state.arg, result_slots: 1 }),
        ),
        (Phase::AwaitingExport, EventView::ExportMissing) => (
            over,
            Some(ActionView::Finish(Err(WasmErrorView::ExportNotFoundError("run"@)))),
        ),
        (Phase::AwaitingReturn, EventView::Returned(values)) => (
            over,
            Some(ActionView::Finish(Ok(joined(values)))),
        ),
        (Phase::AwaitingReturn, EventView::CallFailed(cause)) => (
            over,
            Some(ActionView::Finish(Err(WasmErrorView::CallError(cause)))),
        ),
        _ => (state, None),
    }
}

/// How far a phase is on the way of an invocation.
pub open spec fn rank(phase: Phase) -> nat {
    match phase {
        Phase::AwaitingStore => 0,
        Phase::AwaitingInstance => 1,
        Phase::AwaitingExport => 2,
        Phase::AwaitingReturn => 3,
        Phase::Finished => 4,
    }
}

/// The place of an action in the order of an invocation: the instance,
/// the lookup, the call, the end.
pub open spec fn place(action: ActionView) -> nat {
    match action {
        ActionView::Instantiate => 1,
        ActionView::ResolveExport { .. } => 2,
        ActionView::Call { .. } => 3,
        ActionView::Finish(_) => 4,
    }
}

/// The state after `events`, one after the other, from `state` on.
pub open spec fn after(state: InvocationView, events: Seq<EventView>) -> InvocationView
    decreases events.len(),
{
    if events.len() == 0 {
        state
    } else {
        next(after(state, events.drop_last()), events.last()).0
    }
}

/// The action that the event at `index` is answered with, where `events`
/// come one after the other from `state` on.
pub open spec fn answer(state: InvocationView, events: Seq<EventView>, index: int) -> Option<
    ActionView,
>
    recommends
        0 <= index < events.len(),
{
    next(after(state, events.take(index)), events[index]).1
}

/// What the invocation handed to its caller by the end of `events`: the
/// result of the one `Finish` among the answers, if there is one.
pub open spec fn outcome(state: InvocationView, events: Seq<EventView>) -> Option<
    Result<Seq<char>, WasmErrorView>,
>
    decreases events.len(),
{
    if events.len() == 0 {
        None
    } else {
        match outcome(state, events.drop_last()) {
            Some(result) => Some(result),
            None => match next(after(state, events.drop_last()), events.last()).1 {
                Some(ActionView::Finish(result)) => Some(result),
                _ => None,
            },
        }
    }
}

/// One more event: the state after it is the step from the state before.
pub proof fn lemma_after_push(state: InvocationView, events: Seq<EventView>, event: EventView)
    ensures
        after(state, events.push(event)) == next(after(state, events), event).0,
        answer(state, events.push(event), events.len() as int) == next(
            after(state, events),
            event,
        ).1,
        outcome(state, events.push(event)) == match outcome(state, events) {
            Some(result) => Some(result),
            None => match next(after(state, events), event).1 {
                Some(ActionView::Finish(result)) => Some(result),
                _ => None,
            },
        },
{
    let longer = events.push(event);
    assert(longer.drop_last() =~= events);
    assert(longer.take(events.len() as int) =~= events);
}

/// The argument of an invocation never changes.
pub proof fn lemma_arg_is_kept(state: InvocationView, events: Seq<EventView>)
    ensures
        after(state, events).arg == state.arg,
    decreases events.len(),
{
    if events.len() > 0 {
        lemma_arg_is_kept(state, events.drop_last());
    }
}

/// An invocation that is over stays over: no event changes it, and none
/// is answered with an action.
pub proof fn lemma_finished_stays(state: InvocationView, events: Seq<EventView>)
    requires
        state.phase == Phase::Finished,
    ensures
        after(state, events) == state,
        forall|index: int|
            0 <= index < events.len() ==> #[trigger] answer(state, events, index) is None,
    decreases events.len(),
{
    if events.len() > 0 {
        lemma_finished_stays(state, events.drop_last());
        assert forall|index: int| 0 <= index < events.len() implies #[trigger] answer(
            state,
            events,
            index,
        ) is None by {
            lemma_finished_stays(state, events.take(index));
        }
    }
}

/// What has happened before an invocation stands in a phase: the store
/// was made before the component is instantiated, the component was
/// instantiated before the entry point is looked up, and the entry point
/// was found before it runs, in this order and in this invocation.
pub proof fn lemma_phase_history(arg: Seq<char>, events: Seq<EventView>)
    ensures
        ({
            let phase = after(started(arg), events).phase;
            &&& phase != Phase::AwaitingStore && phase != Phase::Finished ==> exists|s: int|
                0 <= s < events.len() && #[trigger] events[s] == EventView::StoreReady
            &&& phase == Phase::AwaitingExport || phase == Phase::AwaitingReturn ==> exists|
                s: int,
                t: int,
            |
                0 <= s < t < events.len() && #[trigger] events[s] == EventView::StoreReady
                    && #[trigger] events[t] == EventView::Instantiated
            &&& phase == Phase::AwaitingReturn ==> exists|t: int, u: int|
                0 <= t < u < events.len() && #[trigger] events[t] == EventView::Instantiated
                    && #[trigger] events[u] == EventView::ExportFound
        }),
    decreases events.len(),
{
    if events.len() > 0 {
        let before = events.drop_last();
        let last = events.len() - 1;
        lemma_phase_history(arg, before);
        let earlier = after(started(arg), before).phase;
        let phase = after(started(arg), events).phase;
        assert(forall|i: int| 0 <= i < before.len() ==> before[i] == events[i]);
        if phase != Phase::AwaitingStore && phase != Phase::Finished {
            if earlier == Phase::AwaitingStore {
                assert(events[last] == EventView::StoreReady);
            } else {
                let s = choose|s: int|
                    0 <= s < before.len() && #[trigger] before[s] == EventView::StoreReady;
                assert(events[s] == EventView::StoreReady);
            }
        }
        if phase == Phase::AwaitingExport || phase == Phase::AwaitingReturn {
            if earlier == Phase::AwaitingInstance {
                let s = choose|s: int|
                    0 <= s < before.len() && #[trigger] before[s] == EventView::StoreReady;
                assert(events[s] == EventView::StoreReady && events[last]
                    == EventView::Instantiated);
            } else {
                let (s, t) = choose|s: int, t: int|
                    0 <= s < t < before.len() && #[trigger] before[s] == EventView::StoreReady
                        && #[trigger] before[t] == EventView::Instantiated;
                assert(events[s] == EventView::StoreReady && events[t]
                    == EventView::Instantiated);
            }
        }
        if phase == Phase::AwaitingReturn {
            if earlier == Phase::AwaitingExport {
                let (s, t) = choose|s: int, t: int|
                    0 <= s < t < before.len() && #[trigger] before[s] == EventView::StoreReady
                        && #[trigger] before[t] == EventView::Instantiated;
                assert(events[t] == EventView::Instantiated && events[last]
                    == EventView::ExportFound);
            } else {
                let (t, u) = choose|t: int, u: int|
                    0 <= t < u < before.len() && #[trigger] before[t] == EventView::Instantiated
                        && #[trigger] before[u] == EventView::ExportFound;
                assert(events[t] == EventView::Instantiated && events[u]
                    == EventView::ExportFound);
            }
        }
    }
}

/// The entry point is called with the argument of the invocation, as it
/// was given, and only once the store was made and the component was
/// instantiated in this invocation, and the entry point was found.
pub proof fn lemma_call_comes_last(arg: Seq<char>, events: Seq<EventView>, index: int)
    requires
        0 <= index < events.len(),
        answer(started(arg), events, index) matches Some(ActionView::Call { .. }),
    ensures
        answer(started(arg), events, index) == Some(
            ActionView::Call { name: "run"@, arg, result_slots: 1 },
        ),
        events[index] == EventView::ExportFound,
        exists|s: int, t: int|
            0 <= s < t < index && #[trigger] events[s] == EventView::StoreReady
                && #[trigger] events[t] == EventView::Instantiated,
{
    let before = events.take(index);
    lemma_arg_is_kept(started(arg), before);
    lemma_phase_history(arg, before);
    let (s, t) = choose|s: int, t: int|
        0 <= s < t < before.len() && #[trigger] before[s] == EventView::StoreReady
            && #[trigger] before[t] == EventView::Instantiated;
    assert(events[s] == EventView::StoreReady && events[t] == EventView::Instantiated);
}

/// Where every step succeeds, the invocation hands back what the entry
/// point returned for its argument: the argument reaches the call as it
/// was given, and the result is the returned values as one text. A single
/// returned value is handed back exactly.
pub proof fn lemma_invoke_returns_what_run_returns(arg: Seq<char>, values: Seq<Seq<char>>)
    ensures
        ({
            let events = seq![
                EventView::StoreReady,
                EventView::Instantiated,
                EventView::ExportFound,
                EventView::Returned(values),
            ];
            &&& answer(started(arg), events, 0) == Some(ActionView::Instantiate)
            &&& answer(started(arg), events, 1) == Some(
                ActionView::ResolveExport { name: "run"@ },
            )
            &&& answer(started(arg), events, 2) == Some(
                ActionView::Call { name: "run"@, arg, result_slots: 1 },
            )
            &&& answer(started(arg), events, 3) == Some(ActionView::Finish(Ok(joined(values))))
            &&& outcome(started(arg), events) == Some(Ok::<_, WasmErrorView>(joined(values)))
            &&& values.len() == 1 ==> outcome(started(arg), events) == Some(
                Ok::<_, WasmErrorView>(values[0]),
            )
        }),
{
    let start = started(arg);
    let none = Seq::<EventView>::empty();
    let one = none.push(EventView::StoreReady);
    let two = one.push(EventView::Instantiated);
    let three = two.push(EventView::ExportFound);
    let four = three.push(EventView::Returned(values));
    lemma_after_push(start, none, EventView::StoreReady);
    lemma_after_push(start, one, EventView::Instantiated);
    lemma_after_push(start, two, EventView::ExportFound);
    lemma_after_push(start, three, EventView::Returned(values));
    let events = seq![
        EventView::StoreReady,
        EventView::Instantiated,
        EventView::ExportFound,
        EventView::Returned(values),
    ];
    assert(events =~= four);
    assert(events.take(0) =~= none);
    assert(events.take(1) =~= one);
    assert(events.take(2) =~= two);
    assert(events.take(3) =~= three);
}

/// A component without the entry point: the invocation ends with an
/// `ExportNotFoundError` that names the entry point, whatever state the
/// lookup was asked from; no call is asked for.
pub proof fn lemma_missing_export_is_reported(arg: Seq<char>, later: Seq<EventView>)
    ensures
        forall|state: InvocationView|
            state.phase == Phase::AwaitingExport ==> (#[trigger] next(
                state,
                EventView::ExportMissing,
            )).1 == Some(
                ActionView::Finish(Err(WasmErrorView::ExportNotFoundError("run"@))),
            ),
        ({
            let events = seq![
                EventView::StoreReady,
                EventView::Instantiated,
                EventView::ExportMissing,
            ] + later;
            &&& outcome(started(arg), events) == Some(
                Err::<Seq<char>, _>(WasmErrorView::ExportNotFoundError("run"@)),
            )
            &&& forall|index: int|
                0 <= index < events.len() ==> !(#[trigger] answer(started(arg), events, index)
                    matches Some(ActionView::Call { .. }))
        }),
{
    let head = seq![EventView::StoreReady, EventView::Instantiated, EventView::ExportMissing];
    let failure = Err::<Seq<char>, _>(WasmErrorView::ExportNotFoundError("run"@));
    let start = started(arg);
    let none = Seq::<EventView>::empty();
    let one = none.push(EventView::StoreReady);
    let two = one.push(EventView::Instantiated);
    lemma_after_push(start, none, EventView::StoreReady);
    lemma_after_push(start, one, EventView::Instantiated);
    lemma_after_push(start, two, EventView::ExportMissing);
    assert(head =~= two.push(EventView::ExportMissing));
    lemma_ended_early(start, head, later, failure);
    let events = head + later;
    assert(events.take(0) =~= none);
    assert(events.take(1) =~= one);
    assert(events.take(2) =~= two);
}

/// A component that cannot be instantiated, as one with an import that
/// the host has not registered: the invocation ends there, with an
/// `InstantiateError`, and whatever comes later no call is asked for.
pub proof fn lemma_failed_instantiation_never_calls(
    arg: Seq<char>,
    cause: Seq<char>,
    later: Seq<EventView>,
)
    ensures
        ({
            let events = seq![EventView::StoreReady, EventView::InstantiateFailed(cause)]
                + later;
            &&& outcome(started(arg), events) == Some(
                Err::<Seq<char>, _>(WasmErrorView::InstantiateError(cause)),
            )
            &&& forall|index: int|
                0 <= index < events.len() ==> !(#[trigger] answer(started(arg), events, index)
                    matches Some(ActionView::Call { .. }))
        }),
{
    let head = seq![EventView::StoreReady, EventView::InstantiateFailed(cause)];
    let failure = Err::<Seq<char>, _>(WasmErrorView::InstantiateError(cause));
    let start = started(arg);
    let none = Seq::<EventView>::empty();
    let one = none.push(EventView::StoreReady);
    lemma_after_push(start, none, EventView::StoreReady);
    lemma_after_push(start, one, EventView::InstantiateFailed(cause));
    assert(head =~= one.push(EventView::InstantiateFailed(cause)));
    lemma_ended_early(start, head, later, failure);
    let events = head + later;
    assert(events.take(0) =~= none);
    assert(events.take(1) =~= one);
}

/// Once `head` has ended the invocation with `result`, that is its result
/// whatever comes later, and nothing that comes later is answered.
proof fn lemma_ended_early(
    state: InvocationView,
    head: Seq<EventView>,
    later: Seq<EventView>,
    result: Result<Seq<char>, WasmErrorView>,
)
    requires
        after(state, head).phase == Phase::Finished,
        outcome(state, head) == Some(result),
    ensures
        after(state, head + later) == after(state, head),
        outcome(state, head + later) == Some(result),
        forall|index: int|
            head.len() <= index < head.len() + later.len() ==> #[trigger] answer(
                state,
                head + later,
                index,
            ) is None,
        forall|index: int|
            0 <= index < head.len() ==> #[trigger] answer(state, head + later, index) == answer(
                state,
                head,
                index,
            ),
    decreases later.len(),
{
    let events = head + later;
    if later.len() == 0 {
        assert(events =~= head);
    } else {
        let shorter = later.drop_last();
        lemma_ended_early(state, head, shorter, result);
        assert(events.drop_last() =~= head + shorter);
        assert(events.last() == later.last());
        assert forall|index: int|
            head.len() <= index < head.len() + later.len() implies #[trigger] answer(
            state,
            events,
            index,
        ) is None by {
            let cut = later.take(index - head.len());
            assert(events.take(index) =~= head + cut);
            lemma_ended_early(state, head, cut, result);
        }
    }
    assert forall|index: int| 0 <= index < head.len() implies #[trigger] answer(
        state,
        events,
        index,
    ) == answer(state, head, index) by {
        assert(events.take(index) =~= head.take(index));
    }
}

/// Events in two runs: the state after both is the state after the later
/// run, from the state after the earlier run on.
pub proof fn lemma_after_concat(
    state: InvocationView,
    earlier: Seq<EventView>,
    later: Seq<EventView>,
)
    ensures
        after(state, earlier + later) == after(after(state, earlier), later),
    decreases later.len(),
{
    if later.len() == 0 {
        assert(earlier + later =~= earlier);
    } else {
        lemma_after_concat(state, earlier, later.drop_last());
        assert((earlier + later).drop_last() =~= earlier + later.drop_last());
    }
}

/// An invocation never goes back: no event takes it to an earlier phase.
pub proof fn lemma_never_goes_back(state: InvocationView, events: Seq<EventView>)
    ensures
        rank(state.phase) <= rank(after(state, events).phase),
    decreases events.len(),
{
    if events.len() > 0 {
        lemma_never_goes_back(state, events.drop_last());
    }
}

/// The steps of an invocation come in their order, and none is taken
/// twice: of two actions that are asked for, the later one has the later
/// place. So nothing is tried again, and after the end nothing is asked.
pub proof fn lemma_steps_in_order(
    state: InvocationView,
    events: Seq<EventView>,
    first: int,
    second: int,
)
    requires
        0 <= first < second < events.len(),
        answer(state, events, first) is Some,
        answer(state, events, second) is Some,
    ensures
        place(answer(state, events, first).unwrap()) < place(
            answer(state, events, second).unwrap(),
        ),
{
    let upto = events.take(first + 1);
    let between = events.subrange(first + 1, second);
    assert(upto.drop_last() =~= events.take(first));
    assert(events.take(second) =~= upto + between);
    lemma_after_concat(state, upto, between);
    lemma_never_goes_back(after(state, upto), between);
}

/// An error that ends an invocation leaves the handle as it was: it is
/// none of the three that invalidate a handle.
pub proof fn lemma_invocation_spares_handle(state: InvocationView, event: EventView)
    ensures
        next(state, event).1 matches Some(ActionView::Finish(Err(error)))
            ==> !error.invalidates_handle(),
{
}

/// Invoking twice with the same argument, where the guest does the same
/// both times, gives the same result both times: what an invocation asks
/// for and what it hands back depend on its argument and on the events,
/// and on nothing else.
pub proof fn lemma_same_events_same_outcome(
    first_arg: Seq<char>,
    first_events: Seq<EventView>,
    second_arg: Seq<char>,
    second_events: Seq<EventView>,
)
    requires
        first_arg == second_arg,
        first_events == second_events,
    ensures
        outcome(started(first_arg), first_events) == outcome(
            started(second_arg),
            second_events,
        ),
        forall|index: int|
            0 <= index < first_events.len() ==> answer(
                started(first_arg),
                first_events,
                index,
            ) == answer(started(second_arg), second_events, index),
{
}

/// The texts of `values` as one text.
pub fn render(values: &Vec<String>) -> (text: String)
    ensures
        text@ == joined(values.deep_view()),
{
    let ghost texts = values.deep_view();
    let mut text = String::new();
    let mut done: usize = 0;
    while done < values.len()
        invariant
            done <= values.len(),
            texts == values.deep_view(),
            text@ == joined(texts.take(done as int)),
        decreases values.len() - done,
    {
        if done > 0 {
            text.append(", ");
        }
        text.append(values[done].as_str());
        proof {
            let upto = texts.take(done + 1);
            assert(upto.drop_last() =~= texts.take(done as int));
            assert(upto.last() == values[done as int]@);
            if done == 0 {
                assert(text@ =~= upto[0]);
            }
        }
        done += 1;
    }
    proof {
        assert(texts.take(done as int) =~= texts);
    }
    text
}

impl Invocation {
    /// Starts an invocation with `arg`. It waits for its store: every
    /// invocation has a store and a context of its own, which the handle
    /// makes.
    pub fn begin(arg: &str) -> (start: Invocation)
        ensures
            start@ == started(arg@),
    {
        Invocation { arg: String::from_str(arg), phase: Phase::AwaitingStore }
    }

    /// The phase that the invocation is in.
    pub fn phase(&self) -> (phase: Phase)
        ensures
            phase == self@.phase,
    {
        self.phase
    }

    /// The argument of the invocation.
    pub fn arg(&self) -> (arg: &str)
        ensures
            arg@ == self@.arg,
    {
        self.arg.as_str()
    }

    /// Takes the step that `event` calls for, and says what to do next.
    /// `None` says that the phase does not wait for `event`: nothing has
    /// changed then.
    pub fn step(&mut self, event: Event) -> (action: Option<Action>)
        ensures
            final(self)@ == next(old(self)@, event@).0,
            match action {
                Some(action) => next(old(self)@, event@).1 == Some(action@),
                None => next(old(self)@, event@).1 is None,
            },
    {
        match (self.phase, event) {
            (Phase::AwaitingStore, Event::StoreReady) => {
                self.phase = Phase::AwaitingInstance;
                Some(Action::Instantiate)
            },
            (Phase::AwaitingStore, Event::ContextFailed(cause)) => {
                self.phase = Phase::Finished;
                Some(Action::Finish(Err(WasmError::ContextError(cause))))
            },
            (Phase::AwaitingInstance, Event::Instantiated) => {
                self.phase = Phase::AwaitingExport;
                Some(Action::ResolveExport { name: String::from_str(entry_point()) })
            },
            (Phase::AwaitingInstance, Event::InstantiateFailed(cause)) => {
                self.phase = Phase::Finished;
                Some(Action::Finish(Err(WasmError::InstantiateError(cause))))
            },
            (Phase::AwaitingExport, Event::ExportFound) => {
                self.phase = Phase::AwaitingReturn;
                Some(
                    Action::Call {
                        name: String::from_str(entry_point()),
                        arg: self.arg.clone(),
                        result_slots: RESULT_SLOTS,
                    },
                )
            },
            (Phase::AwaitingExport, Event::ExportMissing) => {
                self.phase = Phase::Finished;
                Some(
                    Action::Finish(
                        Err(WasmError::ExportNotFoundError(String::from_str(entry_point()))),
                    ),
                )
            },
            (Phase::AwaitingReturn, Event::Returned(values)) => {
                self.phase = Phase::Finished;
                Some(Action::Finish(Ok(render(&values))))
            },
            (Phase::AwaitingReturn, Event::CallFailed(cause)) => {
                self.phase = Phase::Finished;
                Some(Action::Finish(Err(WasmError::CallError(cause))))
            },
            _ => None,
        }
    }
}

} // verus!
