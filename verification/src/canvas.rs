//! Components side by side on one canvas.
//!
//! A component answers an event with requests, some of which are commands
//! for every component. The canvas hands each such command round, to every
//! component in turn and in the order in which the commands were submitted,
//! before anything else happens. So, when a click selects one component, the
//! others have given up their selection before the drag begins.

use vstd::prelude::*;
use crate::component::{Component, ComponentState, StateView};
use crate::geometry::PointerPos;
use crate::interaction::{next_state, requests, Action, ComponentId, Event, Signal};

verus! {

/// The components on a canvas. Each is named by its place in the list.
pub struct Canvas {
    pub components: Vec<ComponentState>,
}

impl View for Canvas {
    type V = Seq<StateView>;

    open spec fn view(&self) -> Seq<StateView> {
        self.components@.map_values(|c: ComponentState| c@)
    }
}

/// The name of the component at place `i`.
pub open spec fn id_at(i: int) -> ComponentId {
    ComponentId(i as u64)
}

/// The commands among `asked`, in order.
pub open spec fn submitted(asked: Seq<Action>) -> Seq<Signal>
    decreases asked.len(),
{
    if asked.len() == 0 {
        Seq::<Signal>::empty()
    } else {
        let before = submitted(asked.drop_last());
        match asked.last() {
            Action::SubmitCommand(signal) => before.push(signal),
            _ => before,
        }
    }
}

/// The state of component `id` after it was handed each of `signals` in
/// turn.
pub open spec fn run(state: StateView, id: ComponentId, signals: Seq<Signal>) -> StateView
    decreases signals.len(),
{
    if signals.len() == 0 {
        state
    } else {
        next_state(run(state, id, signals.drop_last()), id, Event::Command(signals.last()))
    }
}

/// What component `id` asked of the host while it was handed each of
/// `signals` in turn.
pub open spec fn heard(state: StateView, id: ComponentId, signals: Seq<Signal>) -> Seq<Action>
    decreases signals.len(),
{
    if signals.len() == 0 {
        Seq::<Action>::empty()
    } else {
        heard(state, id, signals.drop_last()) + requests(
            run(state, id, signals.drop_last()),
            id,
            Event::Command(signals.last()),
        )
    }
}

/// The state of the component at place `i` once `event` was delivered to the
/// component at place `target` and the commands it submitted were handed
/// round.
pub open spec fn delivered(before: Seq<StateView>, target: int, event: Event, i: int) -> StateView {
    let signals = submitted(requests(before[target], id_at(target), event));
    if i == target {
        run(next_state(before[i], id_at(i), event), id_at(i), signals)
    } else {
        run(before[i], id_at(i), signals)
    }
}

/// What the component at place `i` asked of the host in the course of that
/// delivery.
pub open spec fn answered(before: Seq<StateView>, target: int, event: Event, i: int) -> Seq<Action> {
    let asked = requests(before[target], id_at(target), event);
    let signals = submitted(asked);
    if i == target {
        asked + heard(next_state(before[i], id_at(i), event), id_at(i), signals)
    } else {
        heard(before[i], id_at(i), signals)
    }
}

/// Appends `more` to `log`.
fn append(log: &mut Vec<Action>, more: &Vec<Action>)
    ensures
        final(log)@ == old(log)@ + more@,
{
    let ghost before = log@;
    let mut i: usize = 0;
    while i < more.len()
        invariant
            i <= more.len(),
            log@ == before + more@.take(i as int),
        decreases more.len() - i,
    {
        log.push(more[i]);
        assert(log@ =~= before + more@.take(i + 1));
        i += 1;
    }
    assert(more@.take(more@.len() as int) =~= more@);
}

impl Canvas {
    /// A canvas with nothing on it.
    pub fn new() -> (canvas: Canvas)
        ensures
            canvas@ == Seq::<StateView>::empty(),
    {
        let canvas = Canvas { components: Vec::new() };
        assert(canvas@ =~= Seq::<StateView>::empty());
        canvas
    }

    /// Puts a component on the canvas and returns its name.
    pub fn place(&mut self, state: ComponentState) -> (id: ComponentId)
        requires
            old(self)@.len() < u64::MAX,
        ensures
            final(self)@ == old(self)@.push(state@),
            id == id_at(old(self)@.len() as int),
    {
        let place = self.components.len();
        self.components.push(state);
        assert(self@ =~= old(self)@.push(state@));
        ComponentId(place as u64)
    }

    /// Hands `signal` to every component in turn and returns what each asked
    /// of the host in answer.
    pub fn broadcast(&mut self, signal: Signal) -> (answers: Vec<Vec<Action>>)
        ensures
            final(self)@.len() == old(self)@.len(),
            answers@.len() == old(self)@.len(),
            forall|i: int|
                0 <= i < old(self)@.len() ==> #[trigger] final(self)@[i] == next_state(
                    old(self)@[i],
                    id_at(i),
                    Event::Command(signal),
                ),
            forall|i: int|
                0 <= i < old(self)@.len() ==> (#[trigger] answers@[i])@ == requests(
                    old(self)@[i],
                    id_at(i),
                    Event::Command(signal),
                ),
    {
        let handler = Component;
        let event = Event::Command(signal);
        let mut answers: Vec<Vec<Action>> = Vec::new();
        let mut i: usize = 0;
        while i < self.components.len()
            invariant
                i <= self.components.len(),
                self@.len() == old(self)@.len(),
                answers@.len() == i,
                event == Event::Command(signal),
                forall|j: int|
                    0 <= j < i ==> #[trigger] self@[j] == next_state(
                        old(self)@[j],
                        id_at(j),
                        event,
                    ),
                forall|j: int| i <= j < self@.len() ==> #[trigger] self@[j] == old(self)@[j],
                forall|j: int|
                    0 <= j < i ==> (#[trigger] answers@[j])@ == requests(
                        old(self)@[j],
                        id_at(j),
                        event,
                    ),
            decreases self.components.len() - i,
        {
            let ghost before = self@;
            let asked = handler.event(ComponentId(i as u64), &event, &mut self.components[i]);
            assert(self@ =~= before.update(i as int, self@[i as int]));
            assert(self@[i as int] == next_state(before[i as int], id_at(i as int), event));
            answers.push(asked);
            i += 1;
        }
        answers
    }

    /// Delivers `event` to the component at place `target`, then hands round
    /// each command that it submitted, one after the other. Returns, for each
    /// component, what it asked of the host on the way, in order. A command
    /// that is handed round never submits another, so one pass is enough.
    ///
    /// After a click the target is selected and holds the pointer; every
    /// other component keeps its selection if the control key was held and
    /// has lost it if not.
    pub fn deliver(&mut self, target: usize, event: &Event) -> (log: Vec<Vec<Action>>)
        requires
            target < old(self)@.len(),
        ensures
            final(self)@.len() == old(self)@.len(),
            log@.len() == old(self)@.len(),
            forall|i: int|
                0 <= i < old(self)@.len() ==> #[trigger] final(self)@[i] == delivered(
                    old(self)@,
                    target as int,
                    *event,
                    i,
                ),
            forall|i: int|
                0 <= i < old(self)@.len() ==> (#[trigger] log@[i])@ == answered(
                    old(self)@,
                    target as int,
                    *event,
                    i,
                ),
            *event is MouseDown ==> final(self)@[target as int].is_dragging(),
            *event matches Event::MouseDown { ctrl, .. } ==> forall|i: int|
                0 <= i < old(self)@.len() && i != target ==> (#[trigger] final(self)@[i]).selected
                    == (ctrl && old(self)@[i].selected),
    {
        let handler = Component;
        let count = self.components.len();
        let mut log: Vec<Vec<Action>> = Vec::new();
        while log.len() < count
            invariant
                log@.len() <= count,
                forall|i: int| 0 <= i < log@.len() ==> (#[trigger] log@[i])@ == Seq::<Action>::empty(),
            decreases count - log.len(),
        {
            log.push(Vec::new());
        }
        let asked = handler.event(ComponentId(target as u64), event, &mut self.components[target]);
        assert(self@ =~= old(self)@.update(target as int, self@[target as int]));
        append(&mut log[target], &asked);
        let ghost first = self@;
        let ghost base = log@.map_values(|l: Vec<Action>| l@);
        let mut k: usize = 0;
        while k < asked.len()
            invariant
                k <= asked.len(),
                count == first.len(),
                self@.len() == count,
                log@.len() == count,
                base.len() == count,
                forall|i: int|
                    0 <= i < count ==> #[trigger] self@[i] == run(
                        first[i],
                        id_at(i),
                        submitted(asked@.take(k as int)),
                    ),
                forall|i: int|
                    0 <= i < count ==> (#[trigger] log@[i])@ == base[i] + heard(
                        first[i],
                        id_at(i),
                        submitted(asked@.take(k as int)),
                    ),
            decreases asked.len() - k,
        {
            let ghost done = submitted(asked@.take(k as int));
            assert(asked@.take(k + 1).drop_last() =~= asked@.take(k as int));
            if let Action::SubmitCommand(signal) = asked[k] {
                let ghost logged = log@.map_values(|l: Vec<Action>| l@);
                let answers = self.broadcast(signal);
                assert(done.push(signal).drop_last() =~= done);
                let mut i: usize = 0;
                while i < count
                    invariant
                        i <= count,
                        log@.len() == count,
                        answers@.len() == count,
                        logged.len() == count,
                        forall|j: int|
                            0 <= j < i ==> (#[trigger] log@[j])@ == logged[j] + answers@[j]@,
                        forall|j: int| i <= j < count ==> (#[trigger] log@[j])@ == logged[j],
                    decreases count - i,
                {
                    append(&mut log[i], &answers[i]);
                    i += 1;
                }
                assert forall|i: int| 0 <= i < count implies (#[trigger] log@[i])@ == base[i]
                    + heard(first[i], id_at(i), submitted(asked@.take(k + 1))) by {
                    assert(logged[i] + answers@[i]@ =~= base[i] + (heard(first[i], id_at(i), done)
                        + answers@[i]@));
                }
            }
            k += 1;
        }
        assert(asked@.take(asked@.len() as int) =~= asked@);
        proof {
            let before = old(self)@;
            if let Event::MouseDown { window_pos, ctrl } = *event {
                assert forall|i: int| 0 <= i < before.len() implies (#[trigger] self@[i]).selected
                    == (i == target || (ctrl && before[i].selected)) && (i == target
                    ==> self@[i].is_dragging()) by {
                    lemma_click_selects_one(before, target as int, window_pos, ctrl, i);
                    assert(self@[i] == delivered(before, target as int, *event, i));
                }
            }
        }
        log
    }
}

/// The commands among a list of requests with one more request at its end.
pub proof fn lemma_submitted_push(asked: Seq<Action>, action: Action)
    ensures
        submitted(asked.push(action)) == match action {
            Action::SubmitCommand(signal) => submitted(asked).push(signal),
            _ => submitted(asked),
        },
{
    assert(asked.push(action).drop_last() =~= asked);
}

/// A component that was handed one more command after `signals` is in the
/// state that the command takes it to from where `signals` left it, and has
/// asked what it asked before and then what that command made it ask.
pub proof fn lemma_run_push(state: StateView, id: ComponentId, signals: Seq<Signal>, signal: Signal)
    ensures
        run(state, id, signals.push(signal)) == next_state(
            run(state, id, signals),
            id,
            Event::Command(signal),
        ),
        heard(state, id, signals.push(signal)) == heard(state, id, signals) + requests(
            run(state, id, signals),
            id,
            Event::Command(signal),
        ),
{
    assert(signals.push(signal).drop_last() =~= signals);
}

/// A click submits the command to begin a drag, and before it, unless the
/// control key is held, the command that deselects every other component.
pub proof fn lemma_click_commands(
    state: StateView,
    id: ComponentId,
    window_pos: PointerPos,
    ctrl: bool,
)
    ensures
        submitted(requests(state, id, Event::MouseDown { window_pos, ctrl })) == if ctrl {
            seq![Signal::BeginDrag(window_pos)]
        } else {
            seq![Signal::DeselectAll(id), Signal::BeginDrag(window_pos)]
        },
{
    let none = Seq::<Action>::empty();
    let repaint = if state.selected {
        none
    } else {
        none.push(Action::RequestPaint)
    };
    let deselect = if ctrl {
        repaint
    } else {
        repaint.push(Action::SubmitCommand(Signal::DeselectAll(id)))
    };
    let drag = deselect.push(Action::SubmitCommand(Signal::BeginDrag(window_pos)));
    let focus = drag.push(Action::RequestFocus);
    let handled = focus.push(Action::SetHandled);
    assert(requests(state, id, Event::MouseDown { window_pos, ctrl }) =~= handled);
    lemma_submitted_push(none, Action::RequestPaint);
    lemma_submitted_push(repaint, Action::SubmitCommand(Signal::DeselectAll(id)));
    lemma_submitted_push(deselect, Action::SubmitCommand(Signal::BeginDrag(window_pos)));
    lemma_submitted_push(drag, Action::RequestFocus);
    lemma_submitted_push(focus, Action::SetHandled);
    assert(submitted(handled) =~= if ctrl {
        seq![Signal::BeginDrag(window_pos)]
    } else {
        seq![Signal::DeselectAll(id), Signal::BeginDrag(window_pos)]
    });
}

/// Nothing but a click submits a command. In particular, a command that is
/// handed round never sets off another.
pub proof fn lemma_only_clicks_submit(state: StateView, id: ComponentId, event: Event)
    requires
        !(event is MouseDown),
    ensures
        submitted(requests(state, id, event)) == Seq::<Signal>::empty(),
{
    let none = Seq::<Action>::empty();
    let asked = requests(state, id, event);
    lemma_submitted_push(none, Action::RequestPaint);
    lemma_submitted_push(none, Action::SetActive(true));
    lemma_submitted_push(none, Action::SetActive(false));
    lemma_submitted_push(none.push(Action::SetActive(false)), Action::ResignFocus);
    lemma_submitted_push(
        none.push(Action::SetActive(false)).push(Action::ResignFocus),
        Action::RequestPaint,
    );
    assert(asked =~= none || asked =~= none.push(Action::RequestPaint) || asked =~= none.push(
        Action::SetActive(true),
    ) || asked =~= none.push(Action::SetActive(false)) || asked =~= none.push(
        Action::SetActive(false),
    ).push(Action::ResignFocus).push(Action::RequestPaint));
}

/// A click on one component selects it and lets it take hold of the pointer.
/// With the control key held, every other component keeps its selection;
/// without it, every other component ends up idle. No component moves or
/// turns.
pub proof fn lemma_click_selects_one(
    before: Seq<StateView>,
    target: int,
    window_pos: PointerPos,
    ctrl: bool,
    i: int,
)
    requires
        0 <= target < before.len() <= u64::MAX,
        0 <= i < before.len(),
    ensures
        ({
            let after = delivered(before, target, Event::MouseDown { window_pos, ctrl }, i);
            &&& after.instance == before[i].instance
            &&& i == target ==> after.is_dragging()
            &&& i != target && ctrl ==> after.selected == before[i].selected
            &&& i != target && !ctrl ==> after.is_idle()
        }),
{
    let none = Seq::<Signal>::empty();
    let event = Event::MouseDown { window_pos, ctrl };
    let start = if i == target {
        next_state(before[i], id_at(i), event)
    } else {
        before[i]
    };
    lemma_click_commands(before[target], id_at(target), window_pos, ctrl);
    if ctrl {
        assert(seq![Signal::BeginDrag(window_pos)] =~= none.push(Signal::BeginDrag(window_pos)));
        lemma_run_push(start, id_at(i), none, Signal::BeginDrag(window_pos));
    } else {
        let deselect = none.push(Signal::DeselectAll(id_at(target)));
        assert(seq![Signal::DeselectAll(id_at(target)), Signal::BeginDrag(window_pos)]
            =~= deselect.push(Signal::BeginDrag(window_pos)));
        lemma_run_push(start, id_at(i), none, Signal::DeselectAll(id_at(target)));
        lemma_run_push(start, id_at(i), deselect, Signal::BeginDrag(window_pos));
    }
}

/// An event that is no click changes the component it is delivered to as
/// that component's own handler says, and no other component.
pub proof fn lemma_other_events_stay_local(
    before: Seq<StateView>,
    target: int,
    event: Event,
    i: int,
)
    requires
        0 <= target < before.len(),
        0 <= i < before.len(),
        !(event is MouseDown),
    ensures
        i == target ==> delivered(before, target, event, i) == next_state(
            before[i],
            id_at(i),
            event,
        ),
        i == target ==> answered(before, target, event, i) == requests(
            before[i],
            id_at(i),
            event,
        ),
        i != target ==> delivered(before, target, event, i) == before[i],
        i != target ==> answered(before, target, event, i) == Seq::<Action>::empty(),
{
    lemma_only_clicks_submit(before[target], id_at(target), event);
    assert(requests(before[i], id_at(i), event) + Seq::<Action>::empty() =~= requests(
        before[i],
        id_at(i),
        event,
    ));
}

/// Commands handed round leave an idle, selected or dragging component
/// idle, selected or dragging.
pub proof fn lemma_run_keeps_well_formed(state: StateView, id: ComponentId, signals: Seq<Signal>)
    requires
        state.well_formed(),
    ensures
        run(state, id, signals).well_formed(),
    decreases signals.len(),
{
    if signals.len() > 0 {
        lemma_run_keeps_well_formed(state, id, signals.drop_last());
    }
}

} // verus!
