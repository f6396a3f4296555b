//! What a placed component looks like, as a list of drawing commands.
//!
//! The icon of a template is drawn facing north, with its top-left corner at
//! the origin. A component that faces another way is painted through a
//! transform that turns the drawing and shifts it back, so that the turned
//! footprint again has its top-left corner at the origin.

use vstd::prelude::*;
use crate::component::{
    Component, ComponentInstance, ComponentState, ComponentType, ComponentTypeView, Icon,
    InstanceView, StateView,
};
use crate::geometry::{Point, Rect, Size, Vec2};
use crate::grid::Coords;
use crate::orientation::Orientation;

verus! {

/// The colours that a component is painted with.
#[derive(Clone, Copy, Debug, PartialEq, Eq, Structural)]
pub enum Color {
    Green,
    Aqua,
}

/// A turn about the origin, clockwise on a canvas whose y axis points down,
/// followed by a shift.
#[derive(Clone, Copy, Debug, PartialEq, Eq, Structural)]
pub struct Affine {
    pub rotation: Orientation,
    pub translation: Vec2,
}

/// One step of painting, for the host to carry out.
#[derive(Clone, Copy, Debug, PartialEq, Eq, Structural)]
pub enum DrawCommand {
    /// Remember the current transform.
    Save,
    /// Go back to the transform last remembered.
    Restore,
    /// Draw what follows through this transform as well.
    Transform(Affine),
    /// Draw the icon with its top-left corner at the origin.
    DrawIcon(Icon),
    /// Fill the rectangle of this extent about this centre.
    FillRect { center: Point, size: Size, color: Color },
    /// Stroke the outline of `rect` grown by `inflate` on every side, with
    /// rounded corners.
    StrokeRoundedRect { rect: Rect, inflate: u32, radius: u32, color: Color, width: u32 },
}

/// The room that a component asks for when the host lays it out.
#[derive(Clone, Copy, Debug, PartialEq, Eq, Structural)]
pub struct Layout {
    /// Extent wished for.
    pub size: Size,
    /// How far painting may reach beyond that extent, on every side.
    pub paint_insets: u32,
}

/// Side of the square that marks a pin.
pub const PIN_MARKER_SIDE: u32 = 2;

/// How far the outline of a selected component stands off its footprint.
pub const SELECTION_MARGIN: u32 = 4;

/// Corner radius of the outline of a selected component.
pub const SELECTION_RADIUS: u32 = 4;

/// Line width of the outline of a selected component.
pub const SELECTION_STROKE: u32 = 1;

/// How far a component may paint beyond its layout extent.
pub const PAINT_INSETS: u32 = 8;

/// `p` turned about the origin by the quarter turns of `rotation`.
pub open spec fn turned(rotation: Orientation, p: (int, int)) -> (int, int) {
    match rotation {
        Orientation::North => p,
        Orientation::East => (-p.1, p.0),
        Orientation::South => (-p.0, -p.1),
        Orientation::West => (p.1, -p.0),
    }
}

impl Affine {
    /// Where the transform takes the point `p`.
    pub open spec fn apply(self, p: (int, int)) -> (int, int) {
        let t = turned(self.rotation, p);
        (t.0 + self.translation.x, t.1 + self.translation.y)
    }

    /// The shift by `v`, without a turn.
    pub fn translate(v: Vec2) -> (shift: Affine)
        ensures
            shift == (Affine { rotation: Orientation::North, translation: v }),
    {
        Affine { rotation: Orientation::North, translation: v }
    }
}

impl ComponentTypeView {
    /// The shift that brings the footprint, turned about its top-left corner
    /// to face `orientation`, back to where its top-left corner is the origin.
    pub open spec fn recenter(self, orientation: Orientation) -> (int, int) {
        match orientation {
            Orientation::North => (0, 0),
            Orientation::East => (self.size.height as int, 0),
            Orientation::South => (self.size.width as int, self.size.height as int),
            Orientation::West => (0, self.size.width as int),
        }
    }

    /// The transform through which the north-facing drawing is painted when
    /// the component faces `orientation`.
    pub open spec fn render_transform(self, orientation: Orientation) -> Affine {
        let shift = self.recenter(orientation);
        Affine { rotation: orientation, translation: Vec2 { x: shift.0 as i64, y: shift.1 as i64 } }
    }
}

/// The mark of a pin: a small green square about the pin's place, in the
/// frame whose origin is the north-facing anchor.
pub open spec fn pin_marker(pin: Coords) -> DrawCommand {
    DrawCommand::FillRect {
        center: Point { x: pin.canvas_point().0 as i64, y: pin.canvas_point().1 as i64 },
        size: Size { width: PIN_MARKER_SIDE, height: PIN_MARKER_SIDE },
        color: Color::Green,
    }
}

/// The commands that paint a component: the icon through the render
/// transform, then a mark for each input pin and each output pin. The pins
/// are placed by the template's north-facing offsets inside the turned
/// frame, so they turn with the icon.
pub open spec fn instance_commands(instance: InstanceView) -> Seq<DrawCommand> {
    seq![
        DrawCommand::Save,
        DrawCommand::Transform(instance.ty.render_transform(instance.orientation)),
        DrawCommand::DrawIcon(instance.ty.icon),
        DrawCommand::Transform(
            Affine {
                rotation: Orientation::North,
                translation: Vec2 {
                    x: instance.ty.anchor.0 as i64,
                    y: instance.ty.anchor.1 as i64,
                },
            },
        ),
    ] + instance.ty.input_pins.map_values(|pin: Coords| pin_marker(pin))
        + instance.ty.output_pins.map_values(|pin: Coords| pin_marker(pin))
        + seq![DrawCommand::Restore]
}

/// The outline that shows a component to be selected: its footprint, moved
/// to the origin of its own frame and grown by the margin.
pub open spec fn selection_outline(instance: InstanceView) -> DrawCommand {
    DrawCommand::StrokeRoundedRect {
        rect: Rect::spec_from_origin_size(Point { x: 0, y: 0 }, instance.footprint()),
        inflate: SELECTION_MARGIN,
        radius: SELECTION_RADIUS,
        color: Color::Aqua,
        width: SELECTION_STROKE,
    }
}

/// The commands that paint a component in its current state.
pub open spec fn state_commands(state: StateView) -> Seq<DrawCommand> {
    if state.selected {
        instance_commands(state.instance).push(selection_outline(state.instance))
    } else {
        instance_commands(state.instance)
    }
}

/// Appends the mark of each pin of `pins` to `commands`.
fn push_pin_markers(commands: &mut Vec<DrawCommand>, pins: &Vec<Coords>)
    ensures
        final(commands)@ == old(commands)@ + pins@.map_values(|pin: Coords| pin_marker(pin)),
{
    let ghost before = commands@;
    let mut i: usize = 0;
    while i < pins.len()
        invariant
            i <= pins.len(),
            commands@ == before + pins@.take(i as int).map_values(|pin: Coords| pin_marker(pin)),
        decreases pins.len() - i,
    {
        let center = pins[i].to_canvas_space();
        commands.push(
            DrawCommand::FillRect {
                center,
                size: Size::new(PIN_MARKER_SIDE, PIN_MARKER_SIDE),
                color: Color::Green,
            },
        );
        assert(pins@.take(i + 1).map_values(|pin: Coords| pin_marker(pin)) =~= pins@.take(
            i as int,
        ).map_values(|pin: Coords| pin_marker(pin)).push(pin_marker(pins@[i as int])));
        assert(commands@ =~= before + pins@.take(i + 1).map_values(|pin: Coords| pin_marker(pin)));
        i += 1;
    }
    assert(pins@.take(pins@.len() as int) =~= pins@);
}

impl ComponentType {
    /// The transform through which the north-facing drawing is painted when
    /// a component of this type faces `orientation`.
    pub fn render_transform(&self, orientation: Orientation) -> (transform: Affine)
        ensures
            transform == self@.render_transform(orientation),
    {
        let width: i64 = self.size.width as i64;
        let height: i64 = self.size.height as i64;
        let translation = match orientation {
            Orientation::North => Vec2::new(0, 0),
            Orientation::East => Vec2::new(height, 0),
            Orientation::South => Vec2::new(width, height),
            Orientation::West => Vec2::new(0, width),
        };
        Affine { rotation: orientation, translation }
    }
}

impl ComponentInstance {
    /// The commands that paint this component, in the frame whose origin is
    /// the top-left corner of its footprint.
    pub fn paint(&self) -> (commands: Vec<DrawCommand>)
        ensures
            commands@ == instance_commands(self@),
    {
        let mut commands: Vec<DrawCommand> = Vec::new();
        commands.push(DrawCommand::Save);
        commands.push(DrawCommand::Transform(self.ty.render_transform(self.orientation)));
        commands.push(DrawCommand::DrawIcon(self.ty.icon));
        commands.push(DrawCommand::Transform(Affine::translate(self.anchor_offset())));
        push_pin_markers(&mut commands, &self.ty.input_pins);
        push_pin_markers(&mut commands, &self.ty.output_pins);
        commands.push(DrawCommand::Restore);
        assert(commands@ =~= instance_commands(self@));
        commands
    }
}

impl Component {
    /// The commands that paint a component in its current state: the
    /// component itself and, if it is selected, an outline around it.
    pub fn paint(&self, data: &ComponentState) -> (commands: Vec<DrawCommand>)
        ensures
            commands@ == state_commands(data@),
    {
        let mut commands = data.instance.paint();
        if data.selected {
            let rect = data.instance.bounding_rect().with_origin(Point::new(0, 0));
            commands.push(
                DrawCommand::StrokeRoundedRect {
                    rect,
                    inflate: SELECTION_MARGIN,
                    radius: SELECTION_RADIUS,
                    color: Color::Aqua,
                    width: SELECTION_STROKE,
                },
            );
        }
        commands
    }

    /// The room that a component asks for: the extent of its template as
    /// drawn facing north, whichever way it faces, and some room to paint
    /// beyond it.
    pub fn layout(&self, data: &ComponentState) -> (layout: Layout)
        ensures
            layout == (Layout { size: data@.instance.ty.size, paint_insets: PAINT_INSETS }),
    {
        Layout { size: data.instance.ty.size, paint_insets: PAINT_INSETS }
    }
}

/// The render transform takes the anchor of the north-facing drawing to the
/// anchor of the footprint as it lies on the canvas.
pub proof fn lemma_render_carries_anchor(ty: ComponentTypeView, orientation: Orientation)
    ensures
        ty.render_transform(orientation).apply(ty.anchor) == ty.anchor_offset(orientation),
{
}

/// The render transform takes every point of the north-facing footprint into
/// the footprint as it lies on the canvas.
pub proof fn lemma_render_fits_footprint(
    ty: ComponentTypeView,
    orientation: Orientation,
    p: (int, int),
)
    requires
        0 <= p.0 <= ty.size.width,
        0 <= p.1 <= ty.size.height,
    ensures
        0 <= ty.render_transform(orientation).apply(p).0 <= ty.footprint(orientation).width,
        0 <= ty.render_transform(orientation).apply(p).1 <= ty.footprint(orientation).height,
{
}

/// The render transform takes the corners of the north-facing footprint to
/// the corners of the footprint as it lies on the canvas.
pub proof fn lemma_render_keeps_corners(
    ty: ComponentTypeView,
    orientation: Orientation,
    p: (int, int),
)
    requires
        p.0 == 0 || p.0 == ty.size.width,
        p.1 == 0 || p.1 == ty.size.height,
    ensures
        ({
            let q = ty.render_transform(orientation).apply(p);
            let extent = ty.footprint(orientation);
            &&& q.0 == 0 || q.0 == extent.width
            &&& q.1 == 0 || q.1 == extent.height
        }),
{
}

/// A quarter turn repeated four times is no turn at all.
pub proof fn lemma_four_quarter_turns(p: (int, int))
    ensures
        turned(Orientation::East, turned(Orientation::East, p)) == turned(Orientation::South, p),
        turned(Orientation::East, turned(Orientation::South, p)) == turned(Orientation::West, p),
        turned(Orientation::East, turned(Orientation::West, p)) == p,
{
}

} // verus!
