use std::rc::Rc;

use logic_canvas::component::{ComponentInstance, ComponentState, ComponentType, Icon};
use logic_canvas::geometry::{Point, Size, Vec2};
use logic_canvas::grid::Coords;
use logic_canvas::orientation::Orientation;

const ALL: [Orientation; 4] =
    [Orientation::North, Orientation::East, Orientation::South, Orientation::West];

fn gate(index: usize) -> Rc<ComponentType> {
    ComponentType::enumerate()[index].clone()
}

#[test]
fn catalog_lists_the_four_gates_in_order() {
    let types = ComponentType::enumerate();
    assert_eq!(types.len(), 4);
    assert_eq!(types[0].icon, Icon::NotGate);
    assert_eq!(types[1].icon, Icon::AndGate);
    assert_eq!(types[2].icon, Icon::OrGate);
    assert_eq!(types[3].icon, Icon::NandGate);
}

#[test]
fn catalog_gives_the_inverter_its_geometry() {
    let not_gate = gate(0);
    assert_eq!(not_gate.size, Size::new(24, 48));
    assert_eq!(not_gate.anchor_offset(Orientation::North), Vec2::new(12, 32));
    assert_eq!(not_gate.input_pins, vec![Coords::new(0, 1)]);
    assert_eq!(not_gate.output_pins, vec![Coords::new(0, -2)]);
}

#[test]
fn catalog_gives_the_two_input_gates_their_geometry() {
    for index in 1..4 {
        let ty = gate(index);
        assert_eq!(ty.size, Size::new(48, 48));
        assert_eq!(ty.anchor_offset(Orientation::North), Vec2::new(24, 32));
        assert_eq!(ty.input_pins, vec![Coords::new(-1, 1), Coords::new(1, 1)]);
        assert_eq!(ty.output_pins, vec![Coords::new(0, -2)]);
    }
}

#[test]
fn catalog_is_the_same_every_time() {
    let first = ComponentType::enumerate();
    let second = ComponentType::enumerate();
    for (a, b) in first.iter().zip(second.iter()) {
        assert_eq!(a.size, b.size);
        assert_eq!(a.icon, b.icon);
        assert_eq!(a.input_pins, b.input_pins);
        assert_eq!(a.output_pins, b.output_pins);
        for o in ALL {
            assert_eq!(a.anchor_offset(o), b.anchor_offset(o));
        }
    }
}

#[test]
fn anchor_offset_follows_the_turned_footprint() {
    let not_gate = gate(0);
    assert_eq!(not_gate.anchor_offset(Orientation::North), Vec2::new(12, 32));
    assert_eq!(not_gate.anchor_offset(Orientation::East), Vec2::new(16, 12));
    assert_eq!(not_gate.anchor_offset(Orientation::South), Vec2::new(12, 16));
    assert_eq!(not_gate.anchor_offset(Orientation::West), Vec2::new(32, 12));
    let and_gate = gate(1);
    assert_eq!(and_gate.anchor_offset(Orientation::North), Vec2::new(24, 32));
    assert_eq!(and_gate.anchor_offset(Orientation::East), Vec2::new(16, 24));
    assert_eq!(and_gate.anchor_offset(Orientation::South), Vec2::new(24, 16));
    assert_eq!(and_gate.anchor_offset(Orientation::West), Vec2::new(32, 24));
}

#[test]
fn anchor_offsets_of_opposite_orientations_add_up_to_the_footprint() {
    for ty in ComponentType::enumerate() {
        let w: i64 = ty.size.width as i64;
        let h: i64 = ty.size.height as i64;
        let north = ty.anchor_offset(Orientation::North);
        let south = ty.anchor_offset(Orientation::South);
        assert_eq!(south, Vec2::new(w - north.x, h - north.y));
        let east = ty.anchor_offset(Orientation::East);
        let west = ty.anchor_offset(Orientation::West);
        assert_eq!((east.x + west.x, east.y + west.y), (h, w));
    }
}

#[test]
fn bounding_rect_swaps_its_sides_on_a_quarter_turn() {
    for ty in ComponentType::enumerate() {
        let at = Coords::new(5, -3);
        let upright = ty.size;
        let lying = Size::new(ty.size.height, ty.size.width);
        assert_eq!(ty.bounding_rect(at, Orientation::North).size(), upright);
        assert_eq!(ty.bounding_rect(at, Orientation::South).size(), upright);
        assert_eq!(ty.bounding_rect(at, Orientation::East).size(), lying);
        assert_eq!(ty.bounding_rect(at, Orientation::West).size(), lying);
    }
}

#[test]
fn bounding_rect_puts_the_anchor_on_the_cell() {
    for ty in ComponentType::enumerate() {
        for o in ALL {
            let at = Coords::new(-4, 9);
            let rect = ty.bounding_rect(at, o);
            let anchor = ty.anchor_offset(o);
            let origin = rect.origin();
            assert_eq!(Point::new(origin.x + anchor.x, origin.y + anchor.y), at.to_canvas_space());
        }
    }
}

#[test]
fn bounding_rect_holds_at_the_ends_of_the_grid() {
    let not_gate = gate(0);
    let rect = not_gate.bounding_rect(Coords::new(i32::MIN, i32::MAX), Orientation::West);
    assert_eq!(rect.origin(), Point::new(-34_359_738_368 - 32, 34_359_738_352 - 12));
    assert_eq!(rect.size(), Size::new(48, 24));
}

#[test]
fn inverter_placed_at_the_origin_facing_north() {
    let not_gate = gate(0);
    let instance = ComponentInstance::new(Coords::new(0, 0), not_gate.clone(), Orientation::North);
    let rect = instance.bounding_rect();
    assert_eq!(rect.origin(), Point::new(-12, -32));
    assert_eq!(rect.size(), Size::new(24, 48));
    assert_eq!(instance.ty().input_pins.len(), 1);
    assert_eq!(instance.ty().input_pins[0], Coords::new(0, 1));
    assert_eq!(instance.ty().output_pins.len(), 1);
    assert_eq!(instance.ty().output_pins[0], Coords::new(0, -2));
}

#[test]
fn square_gate_keeps_its_size_when_turned_east() {
    let and_gate = gate(1);
    let north = ComponentInstance::new(Coords::new(2, 2), and_gate.clone(), Orientation::North);
    let east = ComponentInstance::new(Coords::new(2, 2), and_gate, Orientation::East);
    assert_eq!(north.bounding_rect().size(), Size::new(48, 48));
    assert_eq!(east.bounding_rect().size(), Size::new(48, 48));
}

#[test]
fn inverter_shows_the_swap_when_turned_east() {
    let not_gate = gate(0);
    let east = ComponentInstance::new(Coords::new(2, 3), not_gate, Orientation::East);
    let rect = east.bounding_rect();
    assert_eq!(rect.size(), Size::new(48, 24));
    assert_eq!(rect.origin(), Point::new(32 - 16, 48 - 12));
}

#[test]
fn instance_keeps_what_it_was_made_with() {
    let or_gate = gate(2);
    let instance = ComponentInstance::new(Coords::new(-6, 8), or_gate, Orientation::West);
    assert_eq!(instance.coords(), Coords::new(-6, 8));
    assert_eq!(instance.orientation(), Orientation::West);
    assert_eq!(instance.ty().icon, Icon::OrGate);
}

#[test]
fn instance_anchor_offset_ignores_the_orientation() {
    let not_gate = gate(0);
    for o in ALL {
        let instance = ComponentInstance::new(Coords::new(1, 1), not_gate.clone(), o);
        assert_eq!(instance.anchor_offset(), Vec2::new(12, 32));
    }
}

#[test]
fn instances_share_their_template() {
    let nand_gate = gate(3);
    let a = ComponentInstance::new(Coords::new(0, 0), nand_gate.clone(), Orientation::North);
    let b = ComponentInstance::new(Coords::new(9, 9), nand_gate.clone(), Orientation::South);
    assert!(std::ptr::eq(a.ty(), b.ty()));
    assert_eq!(Rc::strong_count(&nand_gate), 3);
}

#[test]
fn new_state_is_idle() {
    let state = ComponentState::new(Coords::new(4, 5), gate(1), Orientation::South);
    assert!(!state.is_selected());
    assert_eq!(state.drag_offset(), None);
    assert_eq!(state.instance.coords(), Coords::new(4, 5));
    assert_eq!(state.instance.orientation(), Orientation::South);
    assert_eq!(state.instance.ty().icon, Icon::AndGate);
}

#[test]
fn pins_of_every_gate_lie_on_the_edge_of_its_footprint() {
    for ty in ComponentType::enumerate() {
        let anchor = ty.anchor_offset(Orientation::North);
        for pin in ty.input_pins.iter() {
            let at = pin.to_canvas_space();
            assert_eq!(anchor.y + at.y, ty.size.height as i64);
            assert!(0 <= anchor.x + at.x && anchor.x + at.x <= ty.size.width as i64);
        }
        for pin in ty.output_pins.iter() {
            let at = pin.to_canvas_space();
            assert_eq!(anchor.y + at.y, 0);
            assert!(0 <= anchor.x + at.x && anchor.x + at.x <= ty.size.width as i64);
        }
    }
}
