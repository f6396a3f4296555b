//! How a placed component answers the pointer and the keyboard.
//!
//! The host delivers one event at a time. The component changes its own
//! state and answers with the requests that the host is to carry out: repaint,
//! take or give up focus, and the commands to hand to every component.

use vstd::prelude::*;
use vstd::string::StrSliceExecFns;
use crate::component::{Component, ComponentState, InstanceView, StateView};
use crate::geometry::{PointerPos, Vec2};
use crate::grid::{nearest_cell, snap_axis, Coords};
use crate::orientation::Orientation;

verus! {

/// Names one component among those on a canvas.
#[derive(Clone, Copy, Debug, PartialEq, Eq, Structural)]
pub struct ComponentId(pub u64);

/// A key of the keyboard.
#[derive(Clone, Debug)]
pub enum Key {
    /// A key that types text.
    Character(String),
    /// Any other key.
    Other,
}

/// A command that the host hands to every component on the canvas.
#[derive(Clone, Copy, Debug, PartialEq, Eq, Structural)]
pub enum Signal {
    /// Every component but the one named gives up its selection.
    DeselectAll(ComponentId),
    /// Every selected component takes hold of the pointer at this position.
    BeginDrag(PointerPos),
}

/// What the host reports to a component.
#[derive(Clone, Debug)]
pub enum Event {
    /// A button went down over the component.
    MouseDown { window_pos: PointerPos, ctrl: bool },
    /// A button was released.
    MouseUp,
    /// The pointer moved.
    MouseMove { window_pos: PointerPos },
    /// A key went down while the component had focus.
    KeyDown(Key),
    /// A command handed round by the host.
    Command(Signal),
}

/// What a component asks of the host in answer to an event.
#[derive(Clone, Copy, Debug, PartialEq, Eq, Structural)]
pub enum Action {
    RequestPaint,
    /// Hand this command to every component, the sender included.
    SubmitCommand(Signal),
    RequestFocus,
    ResignFocus,
    /// Start or stop routing pointer events to this component alone.
    SetActive(bool),
    /// Keep the event from components further down.
    SetHandled,
}

/// The orientation that a key asks for: `w`, `a`, `s` and `d` point north,
/// west, south and east. No other key asks for one.
pub open spec fn key_orientation(key: Key) -> Option<Orientation> {
    match key {
        Key::Character(text) => {
            if text@ =~= seq!['w'] {
                Some(Orientation::North)
            } else if text@ =~= seq!['a'] {
                Some(Orientation::West)
            } else if text@ =~= seq!['s'] {
                Some(Orientation::South)
            } else if text@ =~= seq!['d'] {
                Some(Orientation::East)
            } else {
                None
            }
        },
        Key::Other => None,
    }
}

/// From the anchor's place on the canvas, as if the component faced north, to
/// the pointer at `pos`. The north-facing anchor is used whichever way the
/// component faces, so a turned component is held a little off its anchor.
pub open spec fn grab_offset(instance: InstanceView, pos: PointerPos) -> (int, int) {
    let corner = instance.top_left();
    (pos.x - instance.ty.anchor.0 - corner.0, pos.y - instance.ty.anchor.1 - corner.1)
}

/// The cell that a dragged component moves to when the pointer is at `pos`.
pub open spec fn dragged_to(offset: (int, int), pos: PointerPos) -> Coords {
    nearest_cell((pos.x - offset.0, pos.y - offset.1))
}

/// The state of component `id` after `event`, given its state before.
pub open spec fn next_state(state: StateView, id: ComponentId, event: Event) -> StateView {
    match event {
        Event::MouseDown { .. } => StateView { selected: true, ..state },
        Event::MouseUp => StateView { drag_offset: None, ..state },
        Event::MouseMove { window_pos } => match state.drag_offset {
            Some(offset) => StateView {
                instance: InstanceView { coords: dragged_to(offset, window_pos), ..state.instance },
                ..state
            },
            None => state,
        },
        Event::KeyDown(key) => match key_orientation(key) {
            Some(orientation) => StateView {
                instance: InstanceView { orientation, ..state.instance },
                ..state
            },
            None => state,
        },
        Event::Command(Signal::DeselectAll(origin)) => if origin != id {
            StateView { selected: false, drag_offset: None, ..state }
        } else {
            state
        },
        Event::Command(Signal::BeginDrag(pos)) => if state.selected {
            StateView { drag_offset: Some(grab_offset(state.instance, pos)), ..state }
        } else {
            state
        },
    }
}

/// What component `id` asks of the host in answer to `event`, in order.
pub open spec fn requests(state: StateView, id: ComponentId, event: Event) -> Seq<Action> {
    match event {
        Event::MouseDown { window_pos, ctrl } => {
            let repaint = if state.selected {
                Seq::<Action>::empty()
            } else {
                seq![Action::RequestPaint]
            };
            let deselect = if ctrl {
                Seq::<Action>::empty()
            } else {
                seq![Action::SubmitCommand(Signal::DeselectAll(id))]
            };
            repaint + deselect + seq![
                Action::SubmitCommand(Signal::BeginDrag(window_pos)),
                Action::RequestFocus,
                Action::SetHandled,
            ]
        },
        Event::MouseUp => seq![Action::SetActive(false)],
        Event::MouseMove { .. } => Seq::<Action>::empty(),
        Event::KeyDown(key) => match key_orientation(key) {
            Some(orientation) => if orientation != state.instance.orientation {
                seq![Action::RequestPaint]
            } else {
                Seq::<Action>::empty()
            },
            None => Seq::<Action>::empty(),
        },
        Event::Command(Signal::DeselectAll(origin)) => if origin != id {
            seq![Action::SetActive(false), Action::ResignFocus, Action::RequestPaint]
        } else {
            Seq::<Action>::empty()
        },
        Event::Command(Signal::BeginDrag(_)) => if state.selected {
            seq![Action::SetActive(true)]
        } else {
            Seq::<Action>::empty()
        },
    }
}

/// Reads the orientation that a key asks for.
pub fn orientation_for_key(key: &Key) -> (asked: Option<Orientation>)
    ensures
        asked == key_orientation(*key),
{
    match key {
        Key::Character(text) => {
            let text = text.as_str();
            if text.unicode_len() != 1 {
                return None;
            }
            let c = text.get_char(0);
            assert(text@ =~= seq![c]);
            if c == 'w' {
                Some(Orientation::North)
            } else if c == 'a' {
                Some(Orientation::West)
            } else if c == 's' {
                Some(Orientation::South)
            } else if c == 'd' {
                Some(Orientation::East)
            } else {
                None
            }
        },
        Key::Other => None,
    }
}

impl Component {
    /// Applies `event` to the component `id`, whose state is `data`, and
    /// returns what the host is to do in answer.
    pub fn event(&self, id: ComponentId, event: &Event, data: &mut ComponentState) -> (asked: Vec<Action>)
        ensures
            final(data)@ == next_state(old(data)@, id, *event),
            asked@ == requests(old(data)@, id, *event),
    {
        let mut asked: Vec<Action> = Vec::new();
        match event {
            Event::MouseDown { window_pos, ctrl } => {
                if !data.selected {
                    data.selected = true;
                    asked.push(Action::RequestPaint);
                }
                if !*ctrl {
                    asked.push(Action::SubmitCommand(Signal::DeselectAll(id)));
                }
                asked.push(Action::SubmitCommand(Signal::BeginDrag(*window_pos)));
                asked.push(Action::RequestFocus);
                asked.push(Action::SetHandled);
            },
            Event::MouseUp => {
                data.dragging = None;
                asked.push(Action::SetActive(false));
            },
            Event::MouseMove { window_pos } => {
                if let Some(offset) = data.dragging {
                    let x = snap_axis(window_pos.x as i128 - offset.x as i128);
                    let y = snap_axis(window_pos.y as i128 - offset.y as i128);
                    data.instance.coords = Coords::new(x, y);
                }
            },
            Event::KeyDown(key) => {
                if let Some(orientation) = orientation_for_key(key) {
                    if orientation != data.instance.orientation {
                        data.instance.orientation = orientation;
                        asked.push(Action::RequestPaint);
                    }
                }
            },
            Event::Command(Signal::DeselectAll(origin)) => {
                if origin.0 != id.0 {
                    data.selected = false;
                    data.dragging = None;
                    asked.push(Action::SetActive(false));
                    asked.push(Action::ResignFocus);
                    asked.push(Action::RequestPaint);
                }
            },
            Event::Command(Signal::BeginDrag(pos)) => {
                if data.selected {
                    let anchor = data.instance.anchor_offset();
                    let corner = data.instance.bounding_rect().origin();
                    data.dragging = Some(
                        Vec2::new(
                            pos.x as i64 - anchor.x - corner.x,
                            pos.y as i64 - anchor.y - corner.y,
                        ),
                    );
                    asked.push(Action::SetActive(true));
                }
            },
        }
        asked
    }
}

/// A component is idle, selected or dragging, and no event takes it
/// anywhere else: a drag never outlives the selection.
pub proof fn lemma_events_keep_well_formed(state: StateView, id: ComponentId, event: Event)
    requires
        state.well_formed(),
    ensures
        next_state(state, id, event).well_formed(),
{
}

/// Only the keyboard turns a component, and nothing changes its template.
pub proof fn lemma_only_keys_turn(state: StateView, id: ComponentId, event: Event)
    ensures
        next_state(state, id, event).instance.ty == state.instance.ty,
        !(event is KeyDown) ==> next_state(state, id, event).instance.orientation
            == state.instance.orientation,
{
}

/// Only a pointer move during a drag moves a component.
pub proof fn lemma_only_drags_move(state: StateView, id: ComponentId, event: Event)
    requires
        !(event is MouseMove) || state.drag_offset is None,
    ensures
        next_state(state, id, event).instance.coords == state.instance.coords,
{
}

/// While a drag lasts, each move of the pointer puts the component on the
/// cell nearest to the pointer less the offset it was taken hold at, and
/// changes nothing else: the orientation, the selection and the offset stay.
pub proof fn lemma_move_while_dragging(
    state: StateView,
    id: ComponentId,
    offset: (int, int),
    window_pos: PointerPos,
)
    requires
        state.drag_offset == Some(offset),
    ensures
        next_state(state, id, Event::MouseMove { window_pos }) == (StateView {
            instance: InstanceView { coords: dragged_to(offset, window_pos), ..state.instance },
            ..state
        }),
        next_state(state, id, Event::MouseMove { window_pos }).instance.orientation
            == state.instance.orientation,
        next_state(state, id, Event::MouseMove { window_pos }).drag_offset == Some(offset),
{
}

/// Releasing the button ends a drag and keeps the selection.
pub proof fn lemma_release_ends_drag(state: StateView, id: ComponentId)
    ensures
        next_state(state, id, Event::MouseUp).drag_offset is None,
        next_state(state, id, Event::MouseUp).selected == state.selected,
        next_state(state, id, Event::MouseUp).instance == state.instance,
{
}

/// A selected component that is taken hold of at `from` and then follows the
/// pointer to `to` lands on the cell nearest to where its north-facing anchor
/// would be had the footprint moved along with the pointer.
pub proof fn lemma_drag_follows_pointer(
    state: StateView,
    id: ComponentId,
    from: PointerPos,
    to: PointerPos,
)
    requires
        state.selected,
    ensures
        ({
            let held = next_state(state, id, Event::Command(Signal::BeginDrag(from)));
            let moved = next_state(held, id, Event::MouseMove { window_pos: to });
            let corner = state.instance.top_left();
            let anchor = state.instance.ty.anchor;
            &&& held.is_dragging()
            &&& moved.is_dragging()
            &&& moved.instance.coords == nearest_cell(
                (to.x - from.x + anchor.0 + corner.0, to.y - from.y + anchor.1 + corner.1),
            )
        }),
{
}

/// A north-facing component that is dragged by a whole number of cells moves
/// by that many cells, as far as the grid reaches.
pub proof fn lemma_drag_by_whole_cells(
    state: StateView,
    id: ComponentId,
    from: PointerPos,
    to: PointerPos,
    right: int,
    down: int,
)
    requires
        state.selected,
        state.instance.orientation == Orientation::North,
        to.x - from.x == right * crate::grid::GRID_SCALE,
        to.y - from.y == down * crate::grid::GRID_SCALE,
        i32::MIN <= state.instance.coords.x + right <= i32::MAX,
        i32::MIN <= state.instance.coords.y + down <= i32::MAX,
    ensures
        ({
            let held = next_state(state, id, Event::Command(Signal::BeginDrag(from)));
            let moved = next_state(held, id, Event::MouseMove { window_pos: to });
            &&& moved.instance.coords.x == state.instance.coords.x + right
            &&& moved.instance.coords.y == state.instance.coords.y + down
        }),
{
    crate::grid::lemma_snap_of_grid_point(state.instance.coords.x + right);
    crate::grid::lemma_snap_of_grid_point(state.instance.coords.y + down);
}

/// A key that asks for an orientation sets it, whatever it was before, and
/// changes nothing else.
pub proof fn lemma_key_sets_orientation(state: StateView, id: ComponentId, key: Key)
    requires
        key_orientation(key) is Some,
    ensures
        next_state(state, id, Event::KeyDown(key)) == (StateView {
            instance: InstanceView {
                orientation: key_orientation(key)->Some_0,
                ..state.instance
            },
            ..state
        }),
{
}

/// A key that asks for no orientation changes nothing and asks nothing of
/// the host.
pub proof fn lemma_other_keys_are_ignored(state: StateView, id: ComponentId, key: Key)
    requires
        key_orientation(key) is None,
    ensures
        next_state(state, id, Event::KeyDown(key)) == state,
        requests(state, id, Event::KeyDown(key)) == Seq::<Action>::empty(),
{
}

/// Pressing the same key a second time changes nothing, and asks for no
/// repaint.
pub proof fn lemma_key_twice(state: StateView, id: ComponentId, key: Key)
    ensures
        ({
            let once = next_state(state, id, Event::KeyDown(key));
            &&& next_state(once, id, Event::KeyDown(key)) == once
            &&& requests(once, id, Event::KeyDown(key)) == Seq::<Action>::empty()
        }),
{
}

/// Of two keys pressed in a row, the second decides the orientation if it
/// asks for one.
pub proof fn lemma_last_key_wins(state: StateView, id: ComponentId, first: Key, second: Key)
    requires
        key_orientation(second) is Some,
    ensures
        next_state(
            next_state(state, id, Event::KeyDown(first)),
            id,
            Event::KeyDown(second),
        ).instance.orientation == key_orientation(second)->Some_0,
{
}

/// The four keys that turn a component, and where each points.
pub proof fn lemma_turning_keys(key: Key)
    requires
        key is Character,
    ensures
        key->Character_0@ == seq!['w'] ==> key_orientation(key) == Some(Orientation::North),
        key->Character_0@ == seq!['a'] ==> key_orientation(key) == Some(Orientation::West),
        key->Character_0@ == seq!['s'] ==> key_orientation(key) == Some(Orientation::South),
        key->Character_0@ == seq!['d'] ==> key_orientation(key) == Some(Orientation::East),
{
    // Texts of one letter differ where their letters do.
    assert(seq!['a'][0] != seq!['w'][0]);
    assert(seq!['s'][0] != seq!['w'][0]);
    assert(seq!['s'][0] != seq!['a'][0]);
    assert(seq!['d'][0] != seq!['w'][0]);
    assert(seq!['d'][0] != seq!['a'][0]);
    assert(seq!['d'][0] != seq!['s'][0]);
}

/// A command to deselect leaves the component that sent it alone and takes
/// every other component back to idle.
pub proof fn lemma_deselect_spares_sender(state: StateView, id: ComponentId, origin: ComponentId)
    ensures
        origin == id ==> next_state(state, id, Event::Command(Signal::DeselectAll(origin)))
            == state,
        origin != id ==> next_state(
            state,
            id,
            Event::Command(Signal::DeselectAll(origin)),
        ).is_idle(),
{
}

/// A command to begin a drag is ignored by a component that is not selected.
pub proof fn lemma_begin_drag_needs_selection(state: StateView, id: ComponentId, pos: PointerPos)
    requires
        !state.selected,
    ensures
        next_state(state, id, Event::Command(Signal::BeginDrag(pos))) == state,
        requests(state, id, Event::Command(Signal::BeginDrag(pos))) == Seq::<Action>::empty(),
{
}

} // verus!
