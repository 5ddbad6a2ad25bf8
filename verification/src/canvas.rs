//! A drawing surface that records what is drawn on it.
//!
//! Lengths and coordinates are whole numbers of thousandths of a pixel, with
//! x to the right and y down. A [`Frame`] keeps the operations in the order
//! they were issued; a renderer replays them on a real surface.

use vstd::prelude::*;
use crate::angle::Angle;

verus! {

/// An 8-bit RGBA colour; `a == 255` is opaque.
#[derive(Clone, Copy, Debug, PartialEq, Eq, Structural)]
pub struct Color {
    pub r: u8,
    pub g: u8,
    pub b: u8,
    pub a: u8,
}

impl Color {
    pub open spec fn spec_from_rgb8(r: u8, g: u8, b: u8) -> Color {
        Color { r, g, b, a: 255 }
    }

    /// An opaque colour.
    #[verifier::when_used_as_spec(spec_from_rgb8)]
    pub fn from_rgb8(r: u8, g: u8, b: u8) -> (c: Color)
        ensures
            c == Color::spec_from_rgb8(r, g, b),
    {
        Color { r, g, b, a: 255 }
    }

    pub open spec fn spec_black() -> Color {
        Color { r: 0, g: 0, b: 0, a: 255 }
    }

    #[verifier::when_used_as_spec(spec_black)]
    pub fn black() -> (c: Color)
        ensures
            c == Color::spec_black(),
    {
        Color { r: 0, g: 0, b: 0, a: 255 }
    }

    pub open spec fn spec_white() -> Color {
        Color { r: 255, g: 255, b: 255, a: 255 }
    }

    #[verifier::when_used_as_spec(spec_white)]
    pub fn white() -> (c: Color)
        ensures
            c == Color::spec_white(),
    {
        Color { r: 255, g: 255, b: 255, a: 255 }
    }
}

/// The extent of a drawing surface.
#[derive(Clone, Copy, Debug, PartialEq, Eq, Structural)]
pub struct Size {
    pub width: u32,
    pub height: u32,
}

/// A place on the surface, in the frame's current coordinates.
#[derive(Clone, Copy, Debug, PartialEq, Eq, Structural)]
pub enum Point {
    Cartesian { x: i128, y: i128 },
    /// The point of the circle of `radius` about the origin that lies
    /// `angle` round from the +x axis.
    Polar { radius: i128, angle: Angle },
}

impl Point {
    pub open spec fn spec_new(x: i128, y: i128) -> Point {
        Point::Cartesian { x, y }
    }

    #[verifier::when_used_as_spec(spec_new)]
    pub fn new(x: i128, y: i128) -> (p: Point)
        ensures
            p == Point::spec_new(x, y),
    {
        Point::Cartesian { x, y }
    }

    pub open spec fn spec_origin() -> Point {
        Point::Cartesian { x: 0, y: 0 }
    }

    #[verifier::when_used_as_spec(spec_origin)]
    pub fn origin() -> (p: Point)
        ensures
            p == Point::spec_origin(),
    {
        Point::Cartesian { x: 0, y: 0 }
    }
}

/// An arc of a circle about `center`, turned by `rotation`, running from
/// `start_angle` to `end_angle`.
#[derive(Clone, Copy, Debug, PartialEq, Eq, Structural)]
pub struct Elliptical {
    pub center: Point,
    pub radius: i128,
    pub rotation: Angle,
    pub start_angle: Angle,
    pub end_angle: Angle,
}

/// One step in the outline of a shape.
#[derive(Clone, Copy, Debug, PartialEq, Eq, Structural)]
pub enum PathStep {
    MoveTo(Point),
    LineTo(Point),
    Ellipse(Elliptical),
    Circle { center: Point, radius: i128 },
    Close,
}

/// A finished outline.
pub struct Path {
    steps: Vec<PathStep>,
}

impl View for Path {
    type V = Seq<PathStep>;

    closed spec fn view(&self) -> Seq<PathStep> {
        self.steps@
    }
}

impl Path {
    pub open spec fn spec_line(from: Point, to: Point) -> Seq<PathStep> {
        seq![PathStep::MoveTo(from), PathStep::LineTo(to)]
    }

    /// The segment from `from` to `to`.
    pub fn line(from: Point, to: Point) -> (path: Path)
        ensures
            path@ == Path::spec_line(from, to),
    {
        let mut builder = Builder::new();
        builder.move_to(from);
        builder.line_to(to);
        builder.build()
    }

    pub open spec fn spec_circle(center: Point, radius: i128) -> Seq<PathStep> {
        seq![PathStep::Circle { center, radius }]
    }

    /// The full circle of `radius` about `center`.
    pub fn circle(center: Point, radius: i128) -> (path: Path)
        ensures
            path@ == Path::spec_circle(center, radius),
    {
        let mut builder = Builder::new();
        builder.circle(center, radius);
        builder.build()
    }

    /// The number of steps.
    pub fn len(&self) -> (n: usize)
        ensures
            n == self@.len(),
    {
        self.steps.len()
    }

    /// The step at `index`.
    pub fn step(&self, index: usize) -> (s: PathStep)
        requires
            index < self@.len(),
        ensures
            s == self@[index as int],
    {
        self.steps[index]
    }
}

/// An outline under construction.
pub struct Builder {
    steps: Vec<PathStep>,
}

impl View for Builder {
    type V = Seq<PathStep>;

    closed spec fn view(&self) -> Seq<PathStep> {
        self.steps@
    }
}

impl Builder {
    pub fn new() -> (builder: Builder)
        ensures
            builder@ == Seq::<PathStep>::empty(),
    {
        Builder { steps: Vec::new() }
    }

    pub fn move_to(&mut self, point: Point)
        ensures
            final(self)@ == old(self)@.push(PathStep::MoveTo(point)),
    {
        self.steps.push(PathStep::MoveTo(point));
    }

    pub fn line_to(&mut self, point: Point)
        ensures
            final(self)@ == old(self)@.push(PathStep::LineTo(point)),
    {
        self.steps.push(PathStep::LineTo(point));
    }

    pub fn ellipse(&mut self, arc: Elliptical)
        ensures
            final(self)@ == old(self)@.push(PathStep::Ellipse(arc)),
    {
        self.steps.push(PathStep::Ellipse(arc));
    }

    pub fn circle(&mut self, center: Point, radius: i128)
        ensures
            final(self)@ == old(self)@.push(PathStep::Circle { center, radius }),
    {
        self.steps.push(PathStep::Circle { center, radius });
    }

    pub fn close(&mut self)
        ensures
            final(self)@ == old(self)@.push(PathStep::Close),
    {
        self.steps.push(PathStep::Close);
    }

    pub fn build(self) -> (path: Path)
        ensures
            path@ == self@,
    {
        Path { steps: self.steps }
    }
}

/// The shape of the ends of a line.
#[derive(Clone, Copy, Debug, PartialEq, Eq, Structural)]
pub enum LineCap {
    /// Cut off square at the end point.
    Butt,
    /// Cut off square half the line's width beyond the end point.
    Square,
    /// Rounded off about the end point.
    Round,
}

/// A solid line.
#[derive(Clone, Copy, Debug, PartialEq, Eq, Structural)]
pub struct Stroke {
    pub width: i128,
    pub color: Color,
    pub line_cap: LineCap,
}

/// A number written at the frame's current origin.
#[derive(Clone, Copy, Debug, PartialEq, Eq, Structural)]
pub struct Text {
    pub content: u32,
    pub color: Color,
}

/// One recorded operation. The steps between two paints are the outline
/// that the later paint fills or strokes.
#[derive(Clone, Copy, Debug, PartialEq, Eq, Structural)]
pub enum DrawOp {
    Save,
    Restore,
    Translate(Point),
    Rotate(Angle),
    Outline(PathStep),
    Fill(Color),
    Stroke(Stroke),
    FillText(Text),
}

/// The operations that lay down `path`, step for step.
pub open spec fn outline(path: Seq<PathStep>) -> Seq<DrawOp> {
    Seq::new(path.len(), |i: int| DrawOp::Outline(path[i]))
}

/// The operations that fill `path` with `color`.
pub open spec fn filled(path: Seq<PathStep>, color: Color) -> Seq<DrawOp> {
    outline(path).push(DrawOp::Fill(color))
}

/// The operations that stroke `path` with `stroke`.
pub open spec fn stroked(path: Seq<PathStep>, stroke: Stroke) -> Seq<DrawOp> {
    outline(path).push(DrawOp::Stroke(stroke))
}

/// The middle of a surface of `size`.
pub open spec fn center_of(size: Size) -> Point {
    Point::Cartesian { x: (size.width / 2) as i128, y: (size.height / 2) as i128 }
}

/// A surface of a fixed size and the operations recorded on it so far.
pub struct Frame {
    size: Size,
    ops: Vec<DrawOp>,
}

impl Frame {
    /// The extent of the surface.
    pub closed spec fn spec_size(&self) -> Size {
        self.size
    }

    /// What has been drawn, oldest first.
    pub closed spec fn ops(&self) -> Seq<DrawOp> {
        self.ops@
    }

    /// An empty surface.
    pub fn new(size: Size) -> (frame: Frame)
        ensures
            frame.spec_size() == size,
            frame.ops() == Seq::<DrawOp>::empty(),
    {
        Frame { size, ops: Vec::new() }
    }

    #[verifier::when_used_as_spec(spec_size)]
    pub fn size(&self) -> (size: Size)
        ensures
            size == self.spec_size(),
    {
        self.size
    }

    pub fn width(&self) -> (w: u32)
        ensures
            w == self.spec_size().width,
    {
        self.size.width
    }

    pub fn height(&self) -> (h: u32)
        ensures
            h == self.spec_size().height,
    {
        self.size.height
    }

    /// The middle of the surface.
    pub open spec fn spec_center(&self) -> Point {
        center_of(self.spec_size())
    }

    /// The middle of the surface.
    #[verifier::when_used_as_spec(spec_center)]
    pub fn center(&self) -> (p: Point)
        ensures
            p == self.spec_center(),
    {
        Point::Cartesian { x: (self.size.width / 2) as i128, y: (self.size.height / 2) as i128 }
    }

    /// Keeps the current coordinates until the matching `restore`.
    pub fn save(&mut self)
        ensures
            final(self).spec_size() == old(self).spec_size(),
            final(self).ops() == old(self).ops().push(DrawOp::Save),
    {
        self.ops.push(DrawOp::Save);
    }

    /// Goes back to the coordinates kept by the matching `save`.
    pub fn restore(&mut self)
        ensures
            final(self).spec_size() == old(self).spec_size(),
            final(self).ops() == old(self).ops().push(DrawOp::Restore),
    {
        self.ops.push(DrawOp::Restore);
    }

    /// Moves the origin to `to`.
    pub fn translate(&mut self, to: Point)
        ensures
            final(self).spec_size() == old(self).spec_size(),
            final(self).ops() == old(self).ops().push(DrawOp::Translate(to)),
    {
        self.ops.push(DrawOp::Translate(to));
    }

    /// Turns the coordinates by `angle` about the origin.
    pub fn rotate(&mut self, angle: Angle)
        ensures
            final(self).spec_size() == old(self).spec_size(),
            final(self).ops() == old(self).ops().push(DrawOp::Rotate(angle)),
    {
        self.ops.push(DrawOp::Rotate(angle));
    }

    /// Writes `text` at the origin.
    pub fn fill_text(&mut self, text: Text)
        ensures
            final(self).spec_size() == old(self).spec_size(),
            final(self).ops() == old(self).ops().push(DrawOp::FillText(text)),
    {
        self.ops.push(DrawOp::FillText(text));
    }

    fn trace(&mut self, path: &Path)
        ensures
            final(self).spec_size() == old(self).spec_size(),
            final(self).ops() == old(self).ops() + outline(path@),
    {
        let n = path.len();
        let mut i: usize = 0;
        while i < n
            invariant
                n == path@.len(),
                i <= n,
                self.spec_size() == old(self).spec_size(),
                self.ops() == old(self).ops() + outline(path@.take(i as int)),
            decreases n - i,
        {
            self.ops.push(DrawOp::Outline(path.step(i)));
            i += 1;
            assert(self.ops() == old(self).ops() + outline(path@.take(i as int)));
        }
        assert(path@.take(n as int) == path@);
    }

    /// Fills `path` with `color`.
    pub fn fill(&mut self, path: &Path, color: Color)
        ensures
            final(self).spec_size() == old(self).spec_size(),
            final(self).ops() == old(self).ops() + filled(path@, color),
    {
        self.trace(path);
        self.ops.push(DrawOp::Fill(color));
    }

    /// Strokes `path` with `stroke`.
    pub fn stroke(&mut self, path: &Path, stroke: Stroke)
        ensures
            final(self).spec_size() == old(self).spec_size(),
            final(self).ops() == old(self).ops() + stroked(path@, stroke),
    {
        self.trace(path);
        self.ops.push(DrawOp::Stroke(stroke));
    }

    /// The number of operations recorded.
    pub fn len(&self) -> (n: usize)
        ensures
            n == self.ops().len(),
    {
        self.ops.len()
    }

    /// The operation at `index`.
    pub fn op(&self, index: usize) -> (op: DrawOp)
        requires
            index < self.ops().len(),
        ensures
            op == self.ops()[index as int],
    {
        self.ops[index]
    }

    /// Gives up the surface for its recording.
    pub fn into_ops(self) -> (ops: Vec<DrawOp>)
        ensures
            ops@ == self.ops(),
    {
        self.ops
    }
}

/// A drawing kept for reuse. It holds what was last drawn and the size of
/// the surface it was drawn for, or nothing.
pub struct Cache {
    bounds: Option<Size>,
    ops: Vec<DrawOp>,
}

impl Cache {
    /// The size of the surface that the kept drawing was made for; `None`
    /// where nothing is kept.
    pub closed spec fn bounds(&self) -> Option<Size> {
        self.bounds
    }

    /// The kept drawing; empty where nothing is kept.
    pub closed spec fn ops(&self) -> Seq<DrawOp> {
        self.ops@
    }

    /// Whether a drawing is kept that fits a surface of `bounds`.
    pub open spec fn spec_is_fresh(&self, bounds: Size) -> bool {
        self.bounds() == Some(bounds)
    }

    /// A cache that keeps nothing.
    pub fn new() -> (cache: Cache)
        ensures
            cache.bounds() == None::<Size>,
            cache.ops() == Seq::<DrawOp>::empty(),
    {
        Cache { bounds: None, ops: Vec::new() }
    }

    /// Drops the kept drawing.
    pub fn clear(&mut self)
        ensures
            final(self).bounds() == None::<Size>,
            final(self).ops() == Seq::<DrawOp>::empty(),
    {
        self.bounds = None;
        self.ops = Vec::new();
    }

    /// Whether a drawing is kept that fits a surface of `bounds`.
    #[verifier::when_used_as_spec(spec_is_fresh)]
    pub fn is_fresh(&self, bounds: Size) -> (fresh: bool)
        ensures
            fresh == self.spec_is_fresh(bounds),
    {
        match self.bounds {
            Some(kept) => kept == bounds,
            None => false,
        }
    }

    /// Keeps what was drawn on `frame`, in place of what was kept before.
    pub fn store(&mut self, frame: Frame)
        ensures
            final(self).bounds() == Some(frame.spec_size()),
            final(self).ops() == frame.ops(),
    {
        self.bounds = Some(frame.size());
        self.ops = frame.into_ops();
    }

    /// The kept drawing.
    pub fn drawing(&self) -> (ops: &Vec<DrawOp>)
        ensures
            ops@ == self.ops(),
    {
        &self.ops
    }
}

} // verus!
