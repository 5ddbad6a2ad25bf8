//! The hub that covers the needle's pivot.

use vstd::prelude::*;
use crate::canvas::{
    center_of,
    filled,
    stroked,
    DrawOp,
    Frame,
    LineCap,
    Path,
    PathStep,
    Size,
    Stroke,
};
use crate::style::Appearance;
use crate::util::frame::{radius, radius_of};

verus! {

/// Whether the pin is painted over or under the needle.
#[derive(Clone, Copy, Debug, PartialEq, Eq, Structural)]
pub enum PinOrder {
    Over,
    Under,
}

/// The disc of the pin on a surface of `size`: about the centre, a quarter
/// of `pin_diameter_ratio` of the frame radius wide.
pub open spec fn pin_outline(size: Size, style: Appearance) -> Seq<PathStep> {
    seq![
        PathStep::Circle {
            center: center_of(size),
            radius: (radius_of(size) * style.pin_diameter_ratio / 4000) as i128,
        },
    ]
}

/// The line round the pin on a surface of `size`: a quarter of
/// `pin_border_width_ratio` of the frame radius thick.
pub open spec fn pin_stroke(size: Size, style: Appearance) -> Stroke {
    Stroke {
        width: (radius_of(size) * style.pin_border_width_ratio / 4000) as i128,
        color: style.pin_border_color,
        line_cap: LineCap::Round,
    }
}

/// A shape drawn at the centre of the gauge.
pub trait Pin {
    /// What `draw` puts on a surface of `size`.
    spec fn marks(&self, size: Size, style: Appearance) -> Seq<DrawOp>;

    /// The disc of the pin.
    fn path(&self, frame: &Frame, style: &Appearance) -> (path: Path)
        ensures
            path@ == pin_outline(frame.spec_size(), *style),
    {
        let r: i128 = radius(frame) as i128;
        let ratio: i128 = style.pin_diameter_ratio as i128;
        assert(0 <= r * ratio <= 0xffff_ffff * 0xffff_ffff) by (nonlinear_arith)
            requires
                0 <= r <= 0xffff_ffff,
                0 <= ratio <= 0xffff_ffff,
        ;
        let path = Path::circle(frame.center(), r * ratio / 4000);
        assert(path@ =~= pin_outline(frame.spec_size(), *style));
        path
    }

    /// The line round the pin.
    fn stroke(&self, frame: &Frame, style: &Appearance) -> (stroke: Stroke)
        ensures
            stroke == pin_stroke(frame.spec_size(), *style),
    {
        let r: i128 = radius(frame) as i128;
        let ratio: i128 = style.pin_border_width_ratio as i128;
        assert(0 <= r * ratio <= 0xffff_ffff * 0xffff_ffff) by (nonlinear_arith)
            requires
                0 <= r <= 0xffff_ffff,
                0 <= ratio <= 0xffff_ffff,
        ;
        Stroke { width: r * ratio / 4000, color: style.pin_border_color, line_cap: LineCap::Round }
    }

    /// Draws the pin on `frame`.
    fn draw(&self, frame: &mut Frame, style: &Appearance)
        ensures
            final(frame).spec_size() == old(frame).spec_size(),
            final(frame).ops() == old(frame).ops() + self.marks(old(frame).spec_size(), *style),
    ;
}

/// The pins that come with the library.
#[derive(Clone, Copy, Debug, PartialEq, Eq, Structural)]
pub enum Pins {
    /// A filled disc.
    Solid,
    /// A ring.
    Hollow,
    /// A filled disc with a ring round it.
    Bordered,
}

impl Pin for Pins {
    open spec fn marks(&self, size: Size, style: Appearance) -> Seq<DrawOp> {
        let disc = filled(pin_outline(size, style), style.pin_color);
        let ring = stroked(pin_outline(size, style), pin_stroke(size, style));
        match self {
            Pins::Solid => disc,
            Pins::Hollow => ring,
            Pins::Bordered => disc + ring,
        }
    }

    fn draw(&self, frame: &mut Frame, style: &Appearance) {
        match self {
            Pins::Solid => {
                let path = self.path(frame, style);
                frame.fill(&path, style.pin_color);
            },
            Pins::Hollow => {
                let path = self.path(frame, style);
                let stroke = self.stroke(frame, style);
                frame.stroke(&path, stroke);
            },
            Pins::Bordered => {
                let path = self.path(frame, style);
                frame.fill(&path, style.pin_color);
                let path = self.path(frame, style);
                let stroke = self.stroke(frame, style);
                frame.stroke(&path, stroke);
            },
        }
    }
}

} // verus!
