//! Gate templates and the components placed from them.
//!
//! A `ComponentType` is the fixed geometry of one kind of gate, drawn facing
//! north. A `ComponentInstance` is one such gate on the grid, turned some way;
//! its footprint on the canvas follows from the template, the cell of its
//! anchor and its orientation. A `ComponentState` adds what the pointer has
//! done to it: whether it is selected, and the offset of a drag in progress.

use std::rc::Rc;
use vstd::prelude::*;
use crate::geometry::{Point, Rect, Size, Vec2};
use crate::grid::Coords;
use crate::orientation::Orientation;

verus! {

/// The drawing that a template is painted with.
#[derive(Clone, Copy, Debug, PartialEq, Eq, Structural)]
pub enum Icon {
    NotGate,
    AndGate,
    OrGate,
    NandGate,
}

/// The geometry shared by every component of one kind.
pub struct ComponentType {
    /// Extent of the footprint when facing north.
    pub size: Size,
    /// From the top-left corner of the north-facing footprint to the point
    /// that a component's grid coordinates record.
    pub(crate) anchor_offset: (i32, i32),
    pub icon: Icon,
    /// Input pins, as grid offsets from the anchor when facing north.
    pub input_pins: Vec<Coords>,
    /// Output pins, as grid offsets from the anchor when facing north.
    pub output_pins: Vec<Coords>,
}

/// What a template says, as mathematical values.
pub struct ComponentTypeView {
    pub size: Size,
    pub anchor: (int, int),
    pub icon: Icon,
    pub input_pins: Seq<Coords>,
    pub output_pins: Seq<Coords>,
}

impl View for ComponentType {
    type V = ComponentTypeView;

    open(crate) spec fn view(&self) -> ComponentTypeView {
        ComponentTypeView {
            size: self.size,
            anchor: (self.anchor_offset.0 as int, self.anchor_offset.1 as int),
            icon: self.icon,
            input_pins: self.input_pins@,
            output_pins: self.output_pins@,
        }
    }
}

impl ComponentTypeView {
    /// The anchor, measured from the top-left corner of the footprint as it
    /// lies when the component faces `orientation`. Turning the footprint
    /// carries the anchor with it, and the corner it is measured from is
    /// whichever corner has become the top-left one.
    pub open spec fn anchor_offset(self, orientation: Orientation) -> (int, int) {
        let a = self.anchor;
        match orientation {
            Orientation::North => a,
            Orientation::East => (self.size.height - a.1, a.0),
            Orientation::South => (self.size.width - a.0, self.size.height - a.1),
            Orientation::West => (a.1, self.size.width - a.0),
        }
    }

    /// Extent of the footprint when facing `orientation`: a quarter turn
    /// either way trades width for height.
    pub open spec fn footprint(self, orientation: Orientation) -> Size {
        match orientation {
            Orientation::North | Orientation::South => self.size,
            Orientation::East | Orientation::West => self.size.transposed(),
        }
    }

    /// Top-left corner of the footprint of a component anchored at `coords`.
    pub open spec fn top_left(self, coords: Coords, orientation: Orientation) -> (int, int) {
        let at = coords.canvas_point();
        let a = self.anchor_offset(orientation);
        (at.0 - a.0, at.1 - a.1)
    }
}

/// The inverter: half as wide as the two-input gates, one input below the
/// anchor and the output above it.
pub open spec fn not_gate() -> ComponentTypeView {
    ComponentTypeView {
        size: Size { width: 24, height: 48 },
        anchor: (12, 32),
        icon: Icon::NotGate,
        input_pins: seq![Coords { x: 0, y: 1 }],
        output_pins: seq![Coords { x: 0, y: (-2) as i32 }],
    }
}

/// A gate with two inputs, left and right below the anchor, and one output
/// above it.
pub open spec fn two_input_gate(icon: Icon) -> ComponentTypeView {
    ComponentTypeView {
        size: Size { width: 48, height: 48 },
        anchor: (24, 32),
        icon,
        input_pins: seq![Coords { x: (-1) as i32, y: 1 }, Coords { x: 1, y: 1 }],
        output_pins: seq![Coords { x: 0, y: (-2) as i32 }],
    }
}

/// The templates on offer, in the order a palette shows them.
pub open spec fn catalog() -> Seq<ComponentTypeView> {
    seq![
        not_gate(),
        two_input_gate(Icon::AndGate),
        two_input_gate(Icon::OrGate),
        two_input_gate(Icon::NandGate),
    ]
}

impl ComponentType {
    /// Builds the templates of the catalog, in catalog order.
    pub fn enumerate() -> (types: Vec<Rc<ComponentType>>)
        ensures
            types@.len() == catalog().len(),
            forall|i: int| 0 <= i < types@.len() ==> (#[trigger] types@[i])@ == catalog()[i],
    {
        let not_gate = ComponentType {
            size: Size::new(24, 48),
            anchor_offset: (12, 32),
            icon: Icon::NotGate,
            input_pins: vec![Coords::new(0, 1)],
            output_pins: vec![Coords::new(0, -2)],
        };
        let and_gate = ComponentType {
            size: Size::new(48, 48),
            anchor_offset: (24, 32),
            icon: Icon::AndGate,
            input_pins: vec![Coords::new(-1, 1), Coords::new(1, 1)],
            output_pins: vec![Coords::new(0, -2)],
        };
        let or_gate = ComponentType {
            size: Size::new(48, 48),
            anchor_offset: (24, 32),
            icon: Icon::OrGate,
            input_pins: vec![Coords::new(-1, 1), Coords::new(1, 1)],
            output_pins: vec![Coords::new(0, -2)],
        };
        let nand_gate = ComponentType {
            size: Size::new(48, 48),
            anchor_offset: (24, 32),
            icon: Icon::NandGate,
            input_pins: vec![Coords::new(-1, 1), Coords::new(1, 1)],
            output_pins: vec![Coords::new(0, -2)],
        };
        assert(not_gate@.input_pins =~= catalog()[0].input_pins);
        assert(not_gate@.output_pins =~= catalog()[0].output_pins);
        assert(not_gate@ == catalog()[0]);
        assert(and_gate@.input_pins =~= catalog()[1].input_pins);
        assert(and_gate@.output_pins =~= catalog()[1].output_pins);
        assert(and_gate@ == catalog()[1]);
        assert(or_gate@.input_pins =~= catalog()[2].input_pins);
        assert(or_gate@.output_pins =~= catalog()[2].output_pins);
        assert(or_gate@ == catalog()[2]);
        assert(nand_gate@.input_pins =~= catalog()[3].input_pins);
        assert(nand_gate@.output_pins =~= catalog()[3].output_pins);
        assert(nand_gate@ == catalog()[3]);
        vec![Rc::new(not_gate), Rc::new(and_gate), Rc::new(or_gate), Rc::new(nand_gate)]
    }

    /// The anchor as seen from the top-left corner of the footprint when the
    /// component faces `orientation`.
    pub fn anchor_offset(&self, orientation: Orientation) -> (offset: Vec2)
        ensures
            offset@ == self@.anchor_offset(orientation),
    {
        let ax: i64 = self.anchor_offset.0 as i64;
        let ay: i64 = self.anchor_offset.1 as i64;
        let width: i64 = self.size.width as i64;
        let height: i64 = self.size.height as i64;
        match orientation {
            Orientation::North => Vec2::new(ax, ay),
            Orientation::East => Vec2::new(height - ay, ax),
            Orientation::South => Vec2::new(width - ax, height - ay),
            Orientation::West => Vec2::new(ay, width - ax),
        }
    }

    /// The rectangle on the canvas that a component of this type covers when
    /// its anchor is at `coords` and it faces `orientation`.
    pub fn bounding_rect(&self, coords: Coords, orientation: Orientation) -> (rect: Rect)
        ensures
            rect.spec_origin()@ == self@.top_left(coords, orientation),
            rect.spec_size() == self@.footprint(orientation),
    {
        let at = coords.to_canvas_space();
        let anchor = self.anchor_offset(orientation);
        let top_left = Point::new(at.x - anchor.x, at.y - anchor.y);
        let size = match orientation {
            Orientation::North | Orientation::South => self.size,
            Orientation::East | Orientation::West => Size::new(self.size.height, self.size.width),
        };
        Rect::from_origin_size(top_left, size)
    }
}

/// One gate on the grid.
#[derive(Clone)]
pub struct ComponentInstance {
    /// The cell of the anchor.
    pub(crate) coords: Coords,
    pub(crate) ty: Rc<ComponentType>,
    pub(crate) orientation: Orientation,
}

/// A placed gate, as mathematical values.
pub struct InstanceView {
    pub coords: Coords,
    pub ty: ComponentTypeView,
    pub orientation: Orientation,
}

impl View for ComponentInstance {
    type V = InstanceView;

    open(crate) spec fn view(&self) -> InstanceView {
        InstanceView { coords: self.coords, ty: self.ty@, orientation: self.orientation }
    }
}

impl InstanceView {
    /// Top-left corner of the footprint on the canvas.
    pub open spec fn top_left(self) -> (int, int) {
        self.ty.top_left(self.coords, self.orientation)
    }

    /// Extent of the footprint on the canvas.
    pub open spec fn footprint(self) -> Size {
        self.ty.footprint(self.orientation)
    }
}

impl ComponentInstance {
    pub fn new(coords: Coords, ty: Rc<ComponentType>, orientation: Orientation) -> (instance: Self)
        ensures
            instance@ == (InstanceView { coords, ty: ty@, orientation }),
    {
        ComponentInstance { coords, ty, orientation }
    }

    /// The rectangle on the canvas that this component covers.
    pub fn bounding_rect(&self) -> (rect: Rect)
        ensures
            rect.spec_origin()@ == self@.top_left(),
            rect.spec_size() == self@.footprint(),
    {
        self.ty.bounding_rect(self.coords, self.orientation)
    }

    /// The anchor as the template gives it, facing north, whichever way the
    /// component faces now.
    pub fn anchor_offset(&self) -> (offset: Vec2)
        ensures
            offset@ == self@.ty.anchor,
    {
        self.ty.anchor_offset(Orientation::North)
    }

    pub fn coords(&self) -> (coords: Coords)
        ensures
            coords == self@.coords,
    {
        self.coords
    }

    pub fn orientation(&self) -> (orientation: Orientation)
        ensures
            orientation == self@.orientation,
    {
        self.orientation
    }

    /// The template this component was placed from.
    pub fn ty(&self) -> (ty: &ComponentType)
        ensures
            ty@ == self@.ty,
    {
        &self.ty
    }
}

/// A placed gate together with what the pointer has done to it.
#[derive(Clone)]
pub struct ComponentState {
    pub instance: ComponentInstance,
    pub(crate) selected: bool,
    /// Set while a drag is in progress: from the anchor's place on the canvas
    /// to where the pointer took hold.
    pub(crate) dragging: Option<Vec2>,
}

/// The state of a placed gate, as mathematical values.
pub struct StateView {
    pub instance: InstanceView,
    pub selected: bool,
    pub drag_offset: Option<(int, int)>,
}

impl View for ComponentState {
    type V = StateView;

    open(crate) spec fn view(&self) -> StateView {
        StateView {
            instance: self.instance@,
            selected: self.selected,
            drag_offset: match self.dragging {
                Some(offset) => Some(offset@),
                None => None,
            },
        }
    }
}

impl StateView {
    /// Neither selected nor dragged: how every component starts out.
    pub open spec fn is_idle(self) -> bool {
        !self.selected && self.drag_offset is None
    }

    /// Selected, with no drag in progress.
    pub open spec fn is_selected(self) -> bool {
        self.selected && self.drag_offset is None
    }

    /// Selected and following the pointer.
    pub open spec fn is_dragging(self) -> bool {
        self.selected && self.drag_offset is Some
    }

    /// Only a selected component is ever dragged.
    pub open spec fn well_formed(self) -> bool {
        self.is_idle() || self.is_selected() || self.is_dragging()
    }
}

impl ComponentState {
    /// A freshly placed component: idle.
    pub fn new(coords: Coords, ty: Rc<ComponentType>, orientation: Orientation) -> (state: Self)
        ensures
            state@ == (StateView {
                instance: InstanceView { coords, ty: ty@, orientation },
                selected: false,
                drag_offset: None,
            }),
            state@.is_idle(),
    {
        ComponentState {
            instance: ComponentInstance::new(coords, ty, orientation),
            selected: false,
            dragging: None,
        }
    }

    pub fn is_selected(&self) -> (selected: bool)
        ensures
            selected == self@.selected,
    {
        self.selected
    }

    /// The offset of the drag in progress, if there is one.
    pub fn drag_offset(&self) -> (offset: Option<Vec2>)
        ensures
            offset is Some <==> self@.drag_offset is Some,
            offset matches Some(v) ==> self@.drag_offset == Some(v@),
    {
        self.dragging
    }
}

/// Handles the events of a placed component and paints it. It holds nothing
/// itself: the component's state is handed to each call.
pub struct Component;

/// The anchor of a footprint and the anchor of the same footprint turned half
/// way round mirror each other through the footprint's centre: their offsets
/// add up to the footprint's extent.
pub proof fn lemma_half_turn_reflects_anchor(ty: ComponentTypeView)
    ensures
        ty.anchor_offset(Orientation::North) == ty.anchor,
        ty.anchor_offset(Orientation::South) == (
            ty.size.width - ty.anchor.0,
            ty.size.height - ty.anchor.1,
        ),
        ty.anchor_offset(Orientation::East).0 + ty.anchor_offset(Orientation::West).0
            == ty.size.height,
        ty.anchor_offset(Orientation::East).1 + ty.anchor_offset(Orientation::West).1
            == ty.size.width,
{
}

/// The footprint keeps its extent under a half turn and trades width for
/// height under a quarter turn, so a square footprint never changes.
pub proof fn lemma_footprint_by_orientation(ty: ComponentTypeView, orientation: Orientation)
    ensures
        orientation == Orientation::North || orientation == Orientation::South
            ==> ty.footprint(orientation) == ty.size,
        orientation == Orientation::East || orientation == Orientation::West
            ==> ty.footprint(orientation) == (Size { width: ty.size.height, height: ty.size.width }),
        ty.size.width == ty.size.height ==> ty.footprint(orientation) == ty.size,
{
}

} // verus!
