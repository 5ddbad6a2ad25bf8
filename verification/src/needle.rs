//! The pointer of a gauge.
//!
//! A needle is drawn in its own coordinates: it turns about the origin and
//! points along +x. The gauge rotates the frame before it draws the needle.

use vstd::prelude::*;
use crate::canvas::{filled, Builder, Color, Frame, LineCap, Path, PathStep, Point, Stroke};

verus! {

/// Half the breadth of the diamond at its widest, in thousandths of a pixel.
pub const DIAMOND_HALF_BREADTH: i128 = 7_500;

/// Distance of the arrow's shoulders from the origin, in thousandths of a pixel.
pub const ARROW_SHOULDER: i128 = 10_000;

/// Where every needle ends: on +x, half the gauge radius out.
pub open spec fn tip_of(gauge_radius: u32) -> Point {
    Point::Cartesian { x: (gauge_radius / 2) as i128, y: 0 }
}

/// A shape that points at the current value.
pub trait Needle {
    /// The outline of the needle on a gauge of `gauge_radius`.
    spec fn outline(&self, gauge_radius: u32) -> Seq<PathStep>;

    /// The outline of the needle on a gauge of `gauge_radius`.
    fn path(&self, gauge_radius: u32) -> (path: Path)
        ensures
            path@ == self.outline(gauge_radius),
    ;

    /// The point the needle ends in.
    fn tip(&self, gauge_radius: u32) -> (p: Point)
        ensures
            p == tip_of(gauge_radius),
    {
        Point::new((gauge_radius / 2) as i128, 0)
    }

    /// A black line of `width`.
    fn stroke(&self, width: i128) -> (s: Stroke)
        ensures
            s == (Stroke { width, color: Color::black(), line_cap: LineCap::Round }),
    {
        Stroke { width, color: Color::black(), line_cap: LineCap::Round }
    }

    /// Fills the needle's outline in black. The value is not written.
    fn draw(&self, gauge_radius: u32, value: i32, frame: &mut Frame)
        ensures
            final(frame).spec_size() == old(frame).spec_size(),
            final(frame).ops() == old(frame).ops() + filled(
                self.outline(gauge_radius),
                Color::black(),
            ),
    {
        let path = self.path(gauge_radius);
        frame.fill(&path, Color::black());
    }
}

/// The needles that come with the library.
#[derive(Clone, Copy, Debug, PartialEq, Eq, Structural)]
pub enum Needles {
    /// A straight line from the origin to the tip.
    Basic,
    /// A kite, widest a quarter of the radius out.
    Diamond,
    /// A wedge that starts a tenth of the radius out and has shoulders
    /// close to the origin.
    Arrow,
    /// A wedge whose base lies a fifth of the radius behind the origin.
    Triangle,
}

impl Needles {
    /// The corners of the needle in the order they are joined.
    pub open spec fn corners(self, gauge_radius: u32) -> Seq<Point> {
        let r = gauge_radius as int;
        let tip = tip_of(gauge_radius);
        match self {
            Needles::Basic => seq![Point::spec_origin(), tip],
            Needles::Diamond => seq![
                Point::spec_origin(),
                Point::Cartesian { x: (r / 4) as i128, y: DIAMOND_HALF_BREADTH },
                tip,
                Point::Cartesian { x: (r / 4) as i128, y: (-DIAMOND_HALF_BREADTH) as i128 },
                Point::spec_origin(),
            ],
            Needles::Arrow => seq![
                Point::Cartesian { x: (r / 10) as i128, y: 0 },
                Point::Cartesian { x: ARROW_SHOULDER, y: (r / 8) as i128 },
                tip,
                Point::Cartesian { x: ARROW_SHOULDER, y: (-(r / 8)) as i128 },
                Point::Cartesian { x: (r / 10) as i128, y: 0 },
            ],
            Needles::Triangle => seq![
                Point::Cartesian { x: (-(r / 5)) as i128, y: 0 },
                Point::Cartesian { x: (-(r / 5)) as i128, y: (r / 20) as i128 },
                tip,
                Point::Cartesian { x: (-(r / 5)) as i128, y: (-(r / 20)) as i128 },
                Point::Cartesian { x: (-(r / 5)) as i128, y: 0 },
            ],
        }
    }

    /// Whether the outline is closed into an area.
    pub open spec fn closed(self) -> bool {
        self != Needles::Basic
    }
}

/// The outline that moves to the first of `corners`, draws a line to each of
/// the others in turn and, if `close`, closes the shape.
pub open spec fn polygon(corners: Seq<Point>, close: bool) -> Seq<PathStep> {
    let lines = Seq::new(
        corners.len(),
        |i: int|
            if i == 0 {
                PathStep::MoveTo(corners[i])
            } else {
                PathStep::LineTo(corners[i])
            },
    );
    if close {
        lines.push(PathStep::Close)
    } else {
        lines
    }
}

/// Every needle runs through its tip, and every needle but the basic one
/// comes back to where it began and is closed.
pub proof fn lemma_needle_reaches_its_tip(needle: Needles, gauge_radius: u32)
    ensures
        needle.outline(gauge_radius).contains(PathStep::LineTo(tip_of(gauge_radius))),
        needle.closed() ==> needle.outline(gauge_radius).last() == PathStep::Close
            && needle.corners(gauge_radius).first() == needle.corners(gauge_radius).last(),
{
    let steps = needle.outline(gauge_radius);
    if needle.closed() {
        assert(steps[2] == PathStep::LineTo(tip_of(gauge_radius)));
    } else {
        assert(steps[1] == PathStep::LineTo(tip_of(gauge_radius)));
    }
}

impl Needle for Needles {
    open spec fn outline(&self, gauge_radius: u32) -> Seq<PathStep> {
        polygon(self.corners(gauge_radius), self.closed())
    }

    fn path(&self, gauge_radius: u32) -> (path: Path) {
        let r: i128 = gauge_radius as i128;
        let tip = self.tip(gauge_radius);
        let mut b = Builder::new();
        match self {
            Needles::Basic => {
                b.move_to(Point::origin());
                b.line_to(tip);
            },
            Needles::Diamond => {
                b.move_to(Point::origin());
                b.line_to(Point::new(r / 4, DIAMOND_HALF_BREADTH));
                b.line_to(tip);
                b.line_to(Point::new(r / 4, -DIAMOND_HALF_BREADTH));
                b.line_to(Point::origin());
                b.close();
            },
            Needles::Arrow => {
                let inset = r / 10;
                let rear_width = r / 8;
                let tail = Point::new(inset, 0);
                b.move_to(tail);
                b.line_to(Point::new(ARROW_SHOULDER, rear_width));
                b.line_to(tip);
                b.line_to(Point::new(ARROW_SHOULDER, -rear_width));
                b.line_to(tail);
                b.close();
            },
            Needles::Triangle => {
                let rear_length = r / 5;
                let rear_width = r / 20;
                let tail = Point::new(-rear_length, 0);
                b.move_to(tail);
                b.line_to(Point::new(-rear_length, rear_width));
                b.line_to(tip);
                b.line_to(Point::new(-rear_length, -rear_width));
                b.line_to(tail);
                b.close();
            },
        }
        assert(b@ =~= self.outline(gauge_radius));
        b.build()
    }
}

} // verus!
