use std::rc::Rc;

use logic_canvas::component::{Component, ComponentInstance, ComponentState, ComponentType, Icon};
use logic_canvas::geometry::{Point, PointerPos, Rect, Size, Vec2};
use logic_canvas::grid::Coords;
use logic_canvas::interaction::{ComponentId, Event};
use logic_canvas::orientation::Orientation;
use logic_canvas::paint::{Affine, Color, DrawCommand, Layout};

fn gate(index: usize) -> Rc<ComponentType> {
    ComponentType::enumerate()[index].clone()
}

fn pin(x: i64, y: i64) -> DrawCommand {
    DrawCommand::FillRect { center: Point::new(x, y), size: Size::new(2, 2), color: Color::Green }
}

fn turn(rotation: Orientation, x: i64, y: i64) -> DrawCommand {
    DrawCommand::Transform(Affine { rotation, translation: Vec2::new(x, y) })
}

/// Where `transform` takes the point `(x, y)`.
fn apply(transform: Affine, x: i64, y: i64) -> (i64, i64) {
    let (tx, ty) = match transform.rotation {
        Orientation::North => (x, y),
        Orientation::East => (-y, x),
        Orientation::South => (-x, -y),
        Orientation::West => (y, -x),
    };
    (tx + transform.translation.x, ty + transform.translation.y)
}

#[test]
fn inverter_facing_north_is_painted_as_drawn() {
    let instance = ComponentInstance::new(Coords::new(0, 0), gate(0), Orientation::North);
    assert_eq!(
        instance.paint(),
        vec![
            DrawCommand::Save,
            turn(Orientation::North, 0, 0),
            DrawCommand::DrawIcon(Icon::NotGate),
            turn(Orientation::North, 12, 32),
            pin(0, 16),
            pin(0, -32),
            DrawCommand::Restore,
        ]
    );
}

#[test]
fn two_input_gate_facing_west_is_painted_turned() {
    let instance = ComponentInstance::new(Coords::new(7, 7), gate(3), Orientation::West);
    assert_eq!(
        instance.paint(),
        vec![
            DrawCommand::Save,
            turn(Orientation::West, 0, 48),
            DrawCommand::DrawIcon(Icon::NandGate),
            turn(Orientation::North, 24, 32),
            pin(-16, 16),
            pin(16, 16),
            pin(0, -32),
            DrawCommand::Restore,
        ]
    );
}

#[test]
fn render_transform_shifts_the_turned_footprint_back() {
    let not_gate = gate(0);
    assert_eq!(
        not_gate.render_transform(Orientation::North),
        Affine { rotation: Orientation::North, translation: Vec2::new(0, 0) }
    );
    assert_eq!(
        not_gate.render_transform(Orientation::East),
        Affine { rotation: Orientation::East, translation: Vec2::new(48, 0) }
    );
    assert_eq!(
        not_gate.render_transform(Orientation::South),
        Affine { rotation: Orientation::South, translation: Vec2::new(24, 48) }
    );
    assert_eq!(
        not_gate.render_transform(Orientation::West),
        Affine { rotation: Orientation::West, translation: Vec2::new(0, 24) }
    );
}

#[test]
fn render_transform_takes_the_anchor_to_the_turned_anchor() {
    for ty in ComponentType::enumerate() {
        let north = ty.anchor_offset(Orientation::North);
        for o in [Orientation::North, Orientation::East, Orientation::South, Orientation::West] {
            let turned = ty.anchor_offset(o);
            assert_eq!(apply(ty.render_transform(o), north.x, north.y), (turned.x, turned.y));
        }
    }
}

#[test]
fn render_transform_takes_the_footprint_onto_the_turned_footprint() {
    let not_gate = gate(0);
    let east = not_gate.render_transform(Orientation::East);
    assert_eq!(apply(east, 0, 0), (48, 0));
    assert_eq!(apply(east, 24, 0), (48, 24));
    assert_eq!(apply(east, 24, 48), (0, 24));
    assert_eq!(apply(east, 0, 48), (0, 0));
}

#[test]
fn translate_makes_a_shift_without_a_turn() {
    assert_eq!(
        Affine::translate(Vec2::new(-3, 9)),
        Affine { rotation: Orientation::North, translation: Vec2::new(-3, 9) }
    );
}

#[test]
fn unselected_component_is_painted_without_an_outline() {
    let state = ComponentState::new(Coords::new(0, 0), gate(1), Orientation::North);
    assert_eq!(Component.paint(&state), state.instance.paint());
}

#[test]
fn selected_component_is_painted_with_an_outline() {
    let mut state = ComponentState::new(Coords::new(3, 3), gate(0), Orientation::East);
    let click = Event::MouseDown { window_pos: PointerPos::new(0, 0), ctrl: false };
    Component.event(ComponentId(0), &click, &mut state);
    let mut expected = state.instance.paint();
    expected.push(DrawCommand::StrokeRoundedRect {
        rect: Rect::from_origin_size(Point::new(0, 0), Size::new(48, 24)),
        inflate: 4,
        radius: 4,
        color: Color::Aqua,
        width: 1,
    });
    assert_eq!(Component.paint(&state), expected);
}

#[test]
fn layout_asks_for_the_north_facing_extent() {
    for o in [Orientation::North, Orientation::East, Orientation::South, Orientation::West] {
        let state = ComponentState::new(Coords::new(0, 0), gate(0), o);
        assert_eq!(Component.layout(&state), Layout { size: Size::new(24, 48), paint_insets: 8 });
    }
}

#[test]
fn rect_keeps_its_extent_when_moved() {
    let rect = Rect::from_origin_size(Point::new(-12, -32), Size::new(24, 48));
    assert_eq!(rect.origin(), Point::new(-12, -32));
    assert_eq!(rect.size(), Size::new(24, 48));
    let moved = rect.with_origin(Point::new(0, 0));
    assert_eq!(moved.origin(), Point::new(0, 0));
    assert_eq!(moved.size(), Size::new(24, 48));
}
