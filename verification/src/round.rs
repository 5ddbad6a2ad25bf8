//! The round gauge: a dial with ticks, a needle and a pin.
//!
//! A gauge is drawn in five layers, each kept for reuse until what it shows
//! has changed. Values are whole numbers of thousandths of a unit, and one
//! step of the dial is one unit.

use vstd::prelude::*;
use crate::angle::Angle;
use crate::canvas::{
    center_of,
    filled,
    stroked,
    Builder,
    Cache,
    Color,
    DrawOp,
    Elliptical,
    Frame,
    LineCap,
    Path,
    PathStep,
    Point,
    Size,
    Stroke,
};
use crate::needle::{Needle, Needles};
use crate::pin::{Pin, PinOrder, Pins};
use crate::style::{Appearance, Style, Theme};
use crate::tick::{ceil_div, spec_last_tick, Tick};
use crate::util::frame::{radius, radius_of};

verus! {

/// The number of thousandths in one step of the dial.
pub const RESOLUTION: u32 = 1000;

/// How the background of the dial is closed into an area.
#[derive(Clone, Copy, Debug, PartialEq, Eq, Structural)]
pub enum Closing {
    /// A full circle, whatever the sweep.
    Circle,
    /// The arc of the sweep, closed by the chord between its ends.
    Segment,
    /// The arc of the sweep, closed through the centre.
    Sector,
}

/// One of the five drawings a gauge is made of.
#[derive(Clone, Copy, Debug, PartialEq, Eq, Structural)]
pub enum Layer {
    Background,
    Border,
    Ticks,
    Needle,
    Pin,
}

/// A layer as it comes out of a draw.
#[derive(Clone, Copy, Debug, PartialEq, Eq, Structural)]
pub struct Painted {
    pub layer: Layer,
    /// Whether the layer was drawn anew, not taken from what was kept.
    pub redrawn: bool,
}

/// A value that lies outside the range of the gauge.
#[derive(Clone, Copy, Debug, PartialEq, Eq, Structural)]
pub struct ConstraintViolation {
    pub min: i32,
    pub value: i32,
    pub max: i32,
}

/// The outline of the background about `center`.
pub open spec fn bg_outline(
    closing: Closing,
    center: Point,
    radius: i128,
    rotate: Angle,
    length: Angle,
) -> Seq<PathStep> {
    let arc = PathStep::Ellipse(
        Elliptical {
            center,
            radius,
            rotation: rotate,
            start_angle: Angle { num: 0, den: 1 },
            end_angle: length,
        },
    );
    match closing {
        Closing::Circle => seq![PathStep::Circle { center, radius }],
        Closing::Sector => seq![arc, PathStep::LineTo(center), PathStep::Close],
        Closing::Segment => seq![arc, PathStep::Close],
    }
}

/// A sector's outline runs through the centre and is closed; a segment's
/// outline is closed and holds no line or move at all, so none to the centre.
pub proof fn lemma_closing_shapes(center: Point, radius: i128, rotate: Angle, length: Angle)
    ensures
        bg_outline(Closing::Sector, center, radius, rotate, length).contains(
            PathStep::LineTo(center),
        ),
        bg_outline(Closing::Sector, center, radius, rotate, length).last() == PathStep::Close,
        bg_outline(Closing::Segment, center, radius, rotate, length).last() == PathStep::Close,
        forall|i: int|
            0 <= i < bg_outline(Closing::Segment, center, radius, rotate, length).len() ==> {
                let step = #[trigger] bg_outline(Closing::Segment, center, radius, rotate, length)[i];
                !(step is LineTo) && !(step is MoveTo) && !(step is Circle)
            },
{
    let sector = bg_outline(Closing::Sector, center, radius, rotate, length);
    assert(sector[1] == PathStep::LineTo(center));
}

/// The thickness of the border on a frame of `frame_radius`: the radius
/// divided by the ratio. A ratio of zero gives no border.
pub open spec fn border_width(frame_radius: u32, ratio: u32) -> i128 {
    if ratio == 0 {
        0
    } else {
        (frame_radius * 1000 / (ratio as int)) as i128
    }
}

/// The paint order, bottom first: background, ticks, border, then needle
/// and pin with the pin on top if it goes over.
pub open spec fn paint_order(pin_style: PinOrder) -> Seq<Layer> {
    match pin_style {
        PinOrder::Over => seq![
            Layer::Background,
            Layer::Ticks,
            Layer::Border,
            Layer::Needle,
            Layer::Pin,
        ],
        PinOrder::Under => seq![
            Layer::Background,
            Layer::Ticks,
            Layer::Border,
            Layer::Pin,
            Layer::Needle,
        ],
    }
}

/// Whatever the pin's place, a draw paints each of the five layers once,
/// the background first.
pub proof fn lemma_paint_order_is_complete(pin_style: PinOrder)
    ensures
        paint_order(pin_style).len() == 5,
        paint_order(pin_style).first() == Layer::Background,
        paint_order(pin_style).no_duplicates(),
        forall|layer: Layer| paint_order(pin_style).contains(layer),
{
    let order = paint_order(pin_style);
    assert forall|layer: Layer| order.contains(layer) by {
        match pin_style {
            PinOrder::Over => {
                assert(order[0] == Layer::Background && order[1] == Layer::Ticks && order[2]
                    == Layer::Border && order[3] == Layer::Needle && order[4] == Layer::Pin);
            },
            PinOrder::Under => {
                assert(order[0] == Layer::Background && order[1] == Layer::Ticks && order[2]
                    == Layer::Border && order[3] == Layer::Pin && order[4] == Layer::Needle);
            },
        }
    }
}

/// Whether `v` lies outside the range from `min` to `max`.
pub open spec fn violation(min: i32, v: i32, max: i32) -> Option<ConstraintViolation> {
    if v < min || v > max {
        Some(ConstraintViolation { min, value: v, max })
    } else {
        None
    }
}

/// What `cache` holds after a draw for a surface of `bounds`: what it
/// held, if that was drawn for such a surface, else `marks`.
pub open spec fn kept(cache: Cache, bounds: Size, marks: Seq<DrawOp>) -> Seq<DrawOp> {
    if cache.spec_is_fresh(bounds) {
        cache.ops()
    } else {
        marks
    }
}

/// The thickness of the border on a frame of `frame_radius`.
fn border(frame_radius: u32, ratio: u32) -> (width: i128)
    ensures
        width == border_width(frame_radius, ratio),
        0 <= width <= frame_radius * 1000,
{
    if ratio == 0 {
        0
    } else {
        let scaled: i128 = (frame_radius as i128) * 1000;
        assert(0 <= (scaled as int) / (ratio as int) <= scaled) by (nonlinear_arith)
            requires
                scaled >= 0,
                ratio > 0,
        ;
        scaled / (ratio as i128)
    }
}

/// A round gauge with ticks of kind `T`, a needle of kind `N` and a pin of
/// kind `P`.
pub struct Gauge<T, N, P> {
    /// Current value.
    value: i32,
    needle_gfx: Cache,
    bg_gfx: Cache,
    border_gfx: Cache,
    ticks_gfx: Cache,
    pin_gfx: Cache,
    /// The angle the needle moves through from `min` to `max`.
    length: Angle,
    /// The angle at which the dial starts.
    rotate: Angle,
    /// Least value of the range.
    min: i32,
    /// Greatest value of the range.
    max: i32,
    /// The angle the needle moves per unit of value.
    step: Angle,
    /// Number of whole steps in the range.
    steps: usize,
    closing: Closing,
    pub ticks: Box<T>,
    pub needle: Box<N>,
    pub pin: Box<P>,
    pub style: Style,
}

impl<T: Tick, N: Needle, P: Pin> Gauge<T, N, P> {
    pub closed spec fn spec_value(&self) -> i32 {
        self.value
    }

    pub closed spec fn spec_min(&self) -> i32 {
        self.min
    }

    pub closed spec fn spec_max(&self) -> i32 {
        self.max
    }

    pub closed spec fn spec_length(&self) -> Angle {
        self.length
    }

    pub closed spec fn spec_rotate(&self) -> Angle {
        self.rotate
    }

    pub closed spec fn spec_step(&self) -> Angle {
        self.step
    }

    pub closed spec fn spec_steps(&self) -> usize {
        self.steps
    }

    pub closed spec fn spec_closing(&self) -> Closing {
        self.closing
    }

    pub closed spec fn spec_ticks(&self) -> Box<T> {
        self.ticks
    }

    pub closed spec fn spec_needle(&self) -> Box<N> {
        self.needle
    }

    pub closed spec fn spec_pin(&self) -> Box<P> {
        self.pin
    }

    pub closed spec fn spec_style(&self) -> Style {
        self.style
    }

    /// What is kept of `layer`.
    pub closed spec fn cache(&self, layer: Layer) -> Cache {
        match layer {
            Layer::Background => self.bg_gfx,
            Layer::Border => self.border_gfx,
            Layer::Ticks => self.ticks_gfx,
            Layer::Needle => self.needle_gfx,
            Layer::Pin => self.pin_gfx,
        }
    }

    /// The range is not empty, the sweep and the rotation are whole
    /// millionths of a turn, and the step and the number of steps are the
    /// ones the range and the sweep give.
    pub open spec fn wf(&self) -> bool {
        &&& self.spec_min() < self.spec_max()
        &&& self.spec_length().den == 1
        &&& 0 <= self.spec_length().num <= u32::MAX
        &&& self.spec_rotate().den == 1
        &&& i32::MIN <= self.spec_rotate().num <= i32::MAX
        &&& self.spec_step() == (Angle {
            num: (self.spec_length().num * RESOLUTION) as i128,
            den: (self.spec_max() - self.spec_min()) as u64,
        })
        &&& self.spec_steps() == (self.spec_max() - self.spec_min()) / (RESOLUTION as int)
    }

    /// Everything but the value and the kept drawings is as in `other`.
    pub open spec fn same_dial(&self, other: &Self) -> bool {
        &&& self.spec_min() == other.spec_min()
        &&& self.spec_max() == other.spec_max()
        &&& self.spec_length() == other.spec_length()
        &&& self.spec_rotate() == other.spec_rotate()
        &&& self.spec_step() == other.spec_step()
        &&& self.spec_steps() == other.spec_steps()
        &&& self.spec_closing() == other.spec_closing()
        &&& self.spec_ticks() == other.spec_ticks()
        &&& self.spec_needle() == other.spec_needle()
        &&& self.spec_pin() == other.spec_pin()
        &&& self.spec_style() == other.spec_style()
    }

    /// The ticks of a gauge can always be stepped through: a run from
    /// `first` ends at the number of steps in the range, rounded up, or at
    /// `first` itself if that lies beyond or the dial has no sweep.
    pub proof fn lemma_ticks_end_with_the_range(&self, first: u32)
        requires
            self.wf(),
        ensures
            spec_last_tick(first, self.spec_length(), self.spec_step()) == Some(
                if self.spec_length().num == 0 || first >= ceil_div(
                    self.spec_max() - self.spec_min(),
                    RESOLUTION as int,
                ) {
                    first
                } else {
                    ceil_div(self.spec_max() - self.spec_min(), RESOLUTION as int) as u32
                },
            ),
    {
        let sweep = self.spec_length();
        let step = self.spec_step();
        let turn = sweep.num as int;
        let span = self.spec_max() - self.spec_min();
        let steps = ceil_div(span, 1000);
        assert(0 <= turn * 1000 <= 0xffff_ffff * 1000);
        assert(step.num == turn * 1000 && step.den == span);
        let a = turn * span;
        let b = turn * 1000;
        assert(sweep.num * step.den == a && step.num * sweep.den == b) by (nonlinear_arith)
            requires
                sweep.num == turn,
                step.den == span,
                step.num == turn * 1000,
                sweep.den == 1,
                a == turn * span,
                b == turn * 1000,
        ;
        if turn == 0 {
            assert(a == 0 && b == 0 && first * b == 0) by (nonlinear_arith)
                requires
                    turn == 0,
                    a == turn * span,
                    b == turn * 1000,
            ;
        } else {
            assert((first * b >= a) == (first * 1000 >= span)) by (nonlinear_arith)
                requires
                    turn > 0,
                    a == turn * span,
                    b == turn * 1000,
            ;
            assert(ceil_div(a, b) == steps) by (nonlinear_arith)
                requires
                    turn > 0,
                    span > 0,
                    a == turn * span,
                    b == turn * 1000,
                    steps == (span + 1000 - 1) / 1000,
            ;
        }
    }

    /// The angle the needle stands at, counted from the start of the dial:
    /// the value times the sweep, over the width of the range.
    pub open spec fn spec_needle_angle(&self) -> Angle {
        Angle {
            num: (self.spec_value() * self.spec_length().num) as i128,
            den: (self.spec_max() - self.spec_min()) as u64,
        }
    }

    /// What a fresh drawing of the needle holds on a surface of `size`: the
    /// needle filled in black, in coordinates moved to the centre and
    /// turned first to the start of the dial and then by the needle's angle.
    pub open spec fn needle_marks(&self, size: Size) -> Seq<DrawOp> {
        seq![
            DrawOp::Save,
            DrawOp::Translate(center_of(size)),
            DrawOp::Rotate(self.spec_rotate()),
            DrawOp::Rotate(self.spec_needle_angle()),
        ] + filled(self.spec_needle().outline(radius_of(size)), Color::spec_black()) + seq![
            DrawOp::Restore,
        ]
    }

    /// What a fresh drawing of `layer` holds on a surface of `size`.
    pub open spec fn layer_marks(&self, layer: Layer, style: Appearance, size: Size) -> Seq<DrawOp> {
        let frame_radius = radius_of(size);
        let center = center_of(size);
        let border = border_width(frame_radius, style.border_width_ratio);
        let inside = bg_outline(
            self.spec_closing(),
            center,
            (frame_radius - border) as i128,
            self.spec_rotate(),
            self.spec_length(),
        );
        match layer {
            Layer::Background => filled(inside, style.background_color),
            Layer::Border => stroked(
                inside,
                Stroke { width: border, color: style.border_color, line_cap: LineCap::Round },
            ),
            Layer::Needle => self.needle_marks(size),
            Layer::Ticks => seq![
                DrawOp::Save,
                DrawOp::Translate(center),
                DrawOp::Rotate(self.spec_rotate()),
            ] + self.spec_ticks().marks(style, size, self.spec_length(), self.spec_step()) + seq![
                DrawOp::Restore,
            ],
            Layer::Pin => self.spec_pin().marks(size, style),
        }
    }

    /// The same gauge with another needle.
    #[must_use]
    pub fn with_needle<N2: Needle>(self, needle: Box<N2>) -> (gauge: Gauge<T, N2, P>)
        ensures
            gauge.spec_needle() == needle,
            gauge.wf() == self.wf(),
            gauge.spec_value() == self.spec_value(),
            gauge.spec_min() == self.spec_min(),
            gauge.spec_max() == self.spec_max(),
            gauge.spec_length() == self.spec_length(),
            gauge.spec_rotate() == self.spec_rotate(),
            gauge.spec_step() == self.spec_step(),
            gauge.spec_steps() == self.spec_steps(),
            gauge.spec_closing() == self.spec_closing(),
            gauge.spec_ticks() == self.spec_ticks(),
            gauge.spec_pin() == self.spec_pin(),
            gauge.spec_style() == self.spec_style(),
            forall|layer: Layer| #[trigger] gauge.cache(layer) == self.cache(layer),
    {
        let gauge = Gauge {
            value: self.value,
            needle_gfx: self.needle_gfx,
            bg_gfx: self.bg_gfx,
            border_gfx: self.border_gfx,
            ticks_gfx: self.ticks_gfx,
            pin_gfx: self.pin_gfx,
            length: self.length,
            rotate: self.rotate,
            min: self.min,
            max: self.max,
            step: self.step,
            steps: self.steps,
            closing: self.closing,
            ticks: self.ticks,
            needle,
            pin: self.pin,
            style: self.style,
        };
        assert forall|layer: Layer| #[trigger] gauge.cache(layer) == self.cache(layer) by {}
        gauge
    }

    /// The same gauge with another pin.
    #[must_use]
    pub fn with_pin<P2: Pin>(self, pin: Box<P2>) -> (gauge: Gauge<T, N, P2>)
        ensures
            gauge.spec_pin() == pin,
            gauge.wf() == self.wf(),
            gauge.spec_value() == self.spec_value(),
            gauge.spec_min() == self.spec_min(),
            gauge.spec_max() == self.spec_max(),
            gauge.spec_length() == self.spec_length(),
            gauge.spec_rotate() == self.spec_rotate(),
            gauge.spec_step() == self.spec_step(),
            gauge.spec_steps() == self.spec_steps(),
            gauge.spec_closing() == self.spec_closing(),
            gauge.spec_ticks() == self.spec_ticks(),
            gauge.spec_needle() == self.spec_needle(),
            gauge.spec_style() == self.spec_style(),
            forall|layer: Layer| #[trigger] gauge.cache(layer) == self.cache(layer),
    {
        let gauge = Gauge {
            value: self.value,
            needle_gfx: self.needle_gfx,
            bg_gfx: self.bg_gfx,
            border_gfx: self.border_gfx,
            ticks_gfx: self.ticks_gfx,
            pin_gfx: self.pin_gfx,
            length: self.length,
            rotate: self.rotate,
            min: self.min,
            max: self.max,
            step: self.step,
            steps: self.steps,
            closing: self.closing,
            ticks: self.ticks,
            needle: self.needle,
            pin,
            style: self.style,
        };
        assert forall|layer: Layer| #[trigger] gauge.cache(layer) == self.cache(layer) by {}
        gauge
    }

    /// Takes `v` as the value, in or out of range, and drops the kept
    /// drawing of the needle; the other layers stay as they were. Returns the
    /// violation if `v` is out of range.
    pub fn update_value(&mut self, v: i32) -> (out_of_range: Option<ConstraintViolation>)
        ensures
            final(self).spec_value() == v,
            out_of_range == violation(old(self).spec_min(), v, old(self).spec_max()),
            final(self).same_dial(old(self)),
            final(self).wf() == old(self).wf(),
            final(self).cache(Layer::Needle).bounds() == None::<Size>,
            final(self).cache(Layer::Needle).ops() == Seq::<DrawOp>::empty(),
            forall|layer: Layer|
                layer != Layer::Needle ==> #[trigger] final(self).cache(layer) == old(self).cache(
                    layer,
                ),
    {
        let out_of_range = if v < self.min || v > self.max {
            Some(ConstraintViolation { min: self.min, value: v, max: self.max })
        } else {
            None
        };
        self.value = v;
        self.needle_gfx.clear();
        out_of_range
    }

    /// Drops the kept drawings of all five layers.
    pub fn repaint(&mut self)
        ensures
            final(self).spec_value() == old(self).spec_value(),
            final(self).same_dial(old(self)),
            final(self).wf() == old(self).wf(),
            forall|layer: Layer| #[trigger] final(self).cache(layer).bounds() == None::<Size>,
            forall|layer: Layer| #[trigger]
                final(self).cache(layer).ops() == Seq::<DrawOp>::empty(),
    {
        self.needle_gfx.clear();
        self.bg_gfx.clear();
        self.ticks_gfx.clear();
        self.pin_gfx.clear();
        self.border_gfx.clear();
        assert forall|layer: Layer| #[trigger] self.cache(layer).bounds() == None::<Size> by {}
        assert forall|layer: Layer| #[trigger]
            self.cache(layer).ops() == Seq::<DrawOp>::empty() by {}
    }

    /// The outline of the background about `center`.
    pub fn bg_path(&self, center: Point, radius: i128) -> (path: Path)
        ensures
            path@ == bg_outline(
                self.spec_closing(),
                center,
                radius,
                self.spec_rotate(),
                self.spec_length(),
            ),
    {
        match self.closing {
            Closing::Circle => Path::circle(center, radius),
            Closing::Sector => {
                let mut builder = Builder::new();
                builder.ellipse(
                    Elliptical {
                        center,
                        radius,
                        rotation: self.rotate,
                        start_angle: Angle::micro_turns(0),
                        end_angle: self.length,
                    },
                );
                builder.line_to(center);
                builder.close();
                assert(builder@ =~= bg_outline(
                    self.spec_closing(),
                    center,
                    radius,
                    self.spec_rotate(),
                    self.spec_length(),
                ));
                builder.build()
            },
            Closing::Segment => {
                let mut builder = Builder::new();
                builder.ellipse(
                    Elliptical {
                        center,
                        radius,
                        rotation: self.rotate,
                        start_angle: Angle::micro_turns(0),
                        end_angle: self.length,
                    },
                );
                builder.close();
                assert(builder@ =~= bg_outline(
                    self.spec_closing(),
                    center,
                    radius,
                    self.spec_rotate(),
                    self.spec_length(),
                ));
                builder.build()
            },
        }
    }

    fn stroke(&self, width: i128, color: Color) -> (stroke: Stroke)
        ensures
            stroke == (Stroke { width, color, line_cap: LineCap::Round }),
    {
        Stroke { width, color, line_cap: LineCap::Round }
    }

    fn draw_background(&self, frame: &mut Frame, style: &Appearance)
        ensures
            final(frame).spec_size() == old(frame).spec_size(),
            final(frame).ops() == old(frame).ops() + self.layer_marks(
                Layer::Background,
                *style,
                old(frame).spec_size(),
            ),
    {
        let frame_radius = radius(frame);
        let border_radius = frame_radius as i128 - border(
            frame_radius,
            style.border_width_ratio,
        );
        let background = self.bg_path(frame.center(), border_radius);
        frame.fill(&background, style.background_color);
    }

    fn draw_border(&self, frame: &mut Frame, style: &Appearance)
        ensures
            final(frame).spec_size() == old(frame).spec_size(),
            final(frame).ops() == old(frame).ops() + self.layer_marks(
                Layer::Border,
                *style,
                old(frame).spec_size(),
            ),
    {
        let frame_radius = radius(frame);
        let border_width = border(frame_radius, style.border_width_ratio);
        let border_inner_radius = frame_radius as i128 - border_width;
        let path = self.bg_path(frame.center(), border_inner_radius);
        frame.stroke(&path, self.stroke(border_width, style.border_color));
    }

    /// The angle the needle stands at, counted from the start of the dial.
    #[verifier::when_used_as_spec(spec_needle_angle)]
    pub fn needle_angle(&self) -> (angle: Angle)
        requires
            self.wf(),
        ensures
            angle == self.spec_needle_angle(),
    {
        assert(-0x8000_0000 * 0xffff_ffff <= self.value * self.length.num <= 0x8000_0000
            * 0xffff_ffff) by (nonlinear_arith)
            requires
                -0x8000_0000 <= self.value <= 0x8000_0000,
                0 <= self.length.num <= 0xffff_ffff,
        ;
        Angle {
            num: (self.value as i128) * self.length.num,
            den: (self.max as i64 - self.min as i64) as u64,
        }
    }

    fn draw_needle(&self, frame: &mut Frame)
        requires
            self.wf(),
        ensures
            final(frame).spec_size() == old(frame).spec_size(),
            final(frame).ops() == old(frame).ops() + self.needle_marks(old(frame).spec_size()),
    {
        let center = frame.center();
        frame.save();
        frame.translate(center);
        frame.rotate(self.rotate);
        frame.rotate(self.needle_angle());
        self.needle.draw(radius(frame), self.value, frame);
        frame.restore();
        assert(frame.ops() =~= old(frame).ops() + self.needle_marks(old(frame).spec_size()));
    }

    fn draw_ticks(&self, frame: &mut Frame, style: &Appearance)
        ensures
            final(frame).spec_size() == old(frame).spec_size(),
            final(frame).ops() == old(frame).ops() + self.layer_marks(
                Layer::Ticks,
                *style,
                old(frame).spec_size(),
            ),
    {
        let center = frame.center();
        frame.save();
        frame.translate(center);
        frame.rotate(self.rotate);
        self.ticks.draw(frame, style, self.length, self.step);
        frame.restore();
        assert(frame.ops() =~= old(frame).ops() + self.layer_marks(
            Layer::Ticks,
            *style,
            old(frame).spec_size(),
        ));
    }

    fn draw_pin(&self, frame: &mut Frame, style: &Appearance)
        ensures
            final(frame).spec_size() == old(frame).spec_size(),
            final(frame).ops() == old(frame).ops() + self.layer_marks(
                Layer::Pin,
                *style,
                old(frame).spec_size(),
            ),
    {
        self.pin.draw(frame, style);
    }

    /// The layers in paint order, each with whether a draw for a surface of
    /// `bounds` has to draw it anew.
    pub open spec fn painted(&self, pin_style: PinOrder, bounds: Size) -> Seq<Painted> {
        Seq::new(
            5,
            |i: int|
                Painted {
                    layer: paint_order(pin_style)[i],
                    redrawn: !self.cache(paint_order(pin_style)[i]).spec_is_fresh(bounds),
                },
        )
    }

    /// After a draw for a surface of `bounds`, a draw that follows an update
    /// of the value draws the needle anew and nothing else, and a draw that
    /// follows a repaint draws every layer anew.
    ///
    /// `drawn` is the gauge after the first draw, `updated` what
    /// `update_value` makes of it and `cleared` what `repaint` makes of it.
    pub proof fn lemma_only_what_changed_is_redrawn(
        drawn: &Self,
        updated: &Self,
        cleared: &Self,
        pin_style: PinOrder,
        bounds: Size,
    )
        requires
            forall|layer: Layer| #[trigger] drawn.cache(layer).bounds() == Some(bounds),
            updated.cache(Layer::Needle).bounds() == None::<Size>,
            forall|layer: Layer|
                layer != Layer::Needle ==> #[trigger] updated.cache(layer) == drawn.cache(layer),
            forall|layer: Layer| #[trigger] cleared.cache(layer).bounds() == None::<Size>,
        ensures
            forall|i: int|
                0 <= i < 5 ==> (#[trigger] updated.painted(pin_style, bounds)[i]).redrawn == (
                updated.painted(pin_style, bounds)[i].layer == Layer::Needle),
            forall|i: int| 0 <= i < 5 ==> (#[trigger] cleared.painted(pin_style, bounds)[i]).redrawn,
            forall|i: int| 0 <= i < 5 ==> !(#[trigger] drawn.painted(pin_style, bounds)[i]).redrawn,
    {
        assert forall|i: int| 0 <= i < 5 implies (#[trigger] updated.painted(
            pin_style,
            bounds,
        )[i]).redrawn == (updated.painted(pin_style, bounds)[i].layer == Layer::Needle) by {
            let layer = paint_order(pin_style)[i];
            assert(drawn.cache(layer).bounds() == Some(bounds));
        }
        assert forall|i: int| 0 <= i < 5 implies (#[trigger] cleared.painted(
            pin_style,
            bounds,
        )[i]).redrawn by {
            let layer = paint_order(pin_style)[i];
            assert(cleared.cache(layer).bounds() == None::<Size>);
        }
        assert forall|i: int| 0 <= i < 5 implies !(#[trigger] drawn.painted(
            pin_style,
            bounds,
        )[i]).redrawn by {
            let layer = paint_order(pin_style)[i];
            assert(drawn.cache(layer).bounds() == Some(bounds));
        }
    }

    /// Brings every layer up to date for a surface of `bounds` under
    /// `theme`: a layer whose kept drawing was made for such a surface is
    /// left as it is, and any other is drawn anew and kept. Returns the
    /// layers in paint order, bottom first.
    pub fn draw(&mut self, theme: &Theme, bounds: Size) -> (layers: Vec<Painted>)
        requires
            old(self).wf(),
        ensures
            final(self).wf(),
            final(self).spec_value() == old(self).spec_value(),
            final(self).same_dial(old(self)),
            layers@ == old(self).painted(old(self).spec_style().resolved(*theme).pin_style, bounds),
            forall|layer: Layer| #[trigger]
                final(self).cache(layer).bounds() == Some(bounds),
            forall|layer: Layer| #[trigger]
                final(self).cache(layer).ops() == kept(
                    old(self).cache(layer),
                    bounds,
                    old(self).layer_marks(layer, old(self).spec_style().resolved(*theme), bounds),
                ),
    {
        let style = self.style.for_theme(theme);
        let bg = !self.bg_gfx.is_fresh(bounds);
        if bg {
            let mut frame = Frame::new(bounds);
            self.draw_background(&mut frame, &style);
            self.bg_gfx.store(frame);
        }
        let border = !self.border_gfx.is_fresh(bounds);
        if border {
            let mut frame = Frame::new(bounds);
            self.draw_border(&mut frame, &style);
            self.border_gfx.store(frame);
        }
        let needle = !self.needle_gfx.is_fresh(bounds);
        if needle {
            let mut frame = Frame::new(bounds);
            self.draw_needle(&mut frame);
            self.needle_gfx.store(frame);
        }
        let ticks = !self.ticks_gfx.is_fresh(bounds);
        if ticks {
            let mut frame = Frame::new(bounds);
            self.draw_ticks(&mut frame, &style);
            self.ticks_gfx.store(frame);
        }
        let pin = !self.pin_gfx.is_fresh(bounds);
        if pin {
            let mut frame = Frame::new(bounds);
            self.draw_pin(&mut frame, &style);
            self.pin_gfx.store(frame);
        }
        let mut layers: Vec<Painted> = Vec::new();
        layers.push(Painted { layer: Layer::Background, redrawn: bg });
        layers.push(Painted { layer: Layer::Ticks, redrawn: ticks });
        layers.push(Painted { layer: Layer::Border, redrawn: border });
        match style.pin_style {
            PinOrder::Over => {
                layers.push(Painted { layer: Layer::Needle, redrawn: needle });
                layers.push(Painted { layer: Layer::Pin, redrawn: pin });
            },
            PinOrder::Under => {
                layers.push(Painted { layer: Layer::Pin, redrawn: pin });
                layers.push(Painted { layer: Layer::Needle, redrawn: needle });
            },
        }
        assert(layers@ =~= old(self).painted(style.pin_style, bounds));
        assert forall|layer: Layer| #[trigger] self.cache(layer).bounds() == Some(bounds) by {}
        assert forall|layer: Layer| #[trigger]
            self.cache(layer).ops() == kept(
                old(self).cache(layer),
                bounds,
                old(self).layer_marks(layer, style, bounds),
            ) by {
            assert(self.cache(layer).ops() =~= kept(
                old(self).cache(layer),
                bounds,
                old(self).layer_marks(layer, style, bounds),
            ));
        }
        layers
    }

    /// The kept drawing of `layer`.
    pub fn layer(&self, layer: Layer) -> (ops: &Vec<DrawOp>)
        ensures
            ops@ == self.cache(layer).ops(),
    {
        match layer {
            Layer::Background => self.bg_gfx.drawing(),
            Layer::Border => self.border_gfx.drawing(),
            Layer::Ticks => self.ticks_gfx.drawing(),
            Layer::Needle => self.needle_gfx.drawing(),
            Layer::Pin => self.pin_gfx.drawing(),
        }
    }

    /// Whether a drawing of `layer` is kept that fits a surface of `bounds`.
    pub fn is_fresh(&self, layer: Layer, bounds: Size) -> (fresh: bool)
        ensures
            fresh == self.cache(layer).spec_is_fresh(bounds),
    {
        match layer {
            Layer::Background => self.bg_gfx.is_fresh(bounds),
            Layer::Border => self.border_gfx.is_fresh(bounds),
            Layer::Ticks => self.ticks_gfx.is_fresh(bounds),
            Layer::Needle => self.needle_gfx.is_fresh(bounds),
            Layer::Pin => self.pin_gfx.is_fresh(bounds),
        }
    }

    #[verifier::when_used_as_spec(spec_value)]
    pub fn value(&self) -> (v: i32)
        ensures
            v == self.spec_value(),
    {
        self.value
    }

    #[verifier::when_used_as_spec(spec_min)]
    pub fn min(&self) -> (v: i32)
        ensures
            v == self.spec_min(),
    {
        self.min
    }

    #[verifier::when_used_as_spec(spec_max)]
    pub fn max(&self) -> (v: i32)
        ensures
            v == self.spec_max(),
    {
        self.max
    }

    #[verifier::when_used_as_spec(spec_length)]
    pub fn length(&self) -> (a: Angle)
        ensures
            a == self.spec_length(),
    {
        self.length
    }

    #[verifier::when_used_as_spec(spec_rotate)]
    pub fn rotate(&self) -> (a: Angle)
        ensures
            a == self.spec_rotate(),
    {
        self.rotate
    }

    #[verifier::when_used_as_spec(spec_step)]
    pub fn step(&self) -> (a: Angle)
        ensures
            a == self.spec_step(),
    {
        self.step
    }

    #[verifier::when_used_as_spec(spec_steps)]
    pub fn steps(&self) -> (n: usize)
        ensures
            n == self.spec_steps(),
    {
        self.steps
    }

    #[verifier::when_used_as_spec(spec_closing)]
    pub fn closing(&self) -> (c: Closing)
        ensures
            c == self.spec_closing(),
    {
        self.closing
    }
}

impl<T: Tick> Gauge<T, Needles, Pins> {
    /// A gauge for values from `min` to `max`, in thousandths, whose needle
    /// sweeps `length` millionths of a turn from a start `rotate` millionths
    /// of a turn round. The value is zero, the needle a diamond, the pin
    /// solid, and nothing is kept of any layer.
    pub fn new(
        min: i32,
        max: i32,
        length: u32,
        rotate: i32,
        closing: Closing,
        ticks: Box<T>,
        style: Style,
    ) -> (gauge: Self)
        requires
            min < max,
        ensures
            gauge.wf(),
            gauge.spec_value() == 0,
            gauge.spec_min() == min,
            gauge.spec_max() == max,
            gauge.spec_length() == (Angle { num: length as i128, den: 1 }),
            gauge.spec_rotate() == (Angle { num: rotate as i128, den: 1 }),
            gauge.spec_closing() == closing,
            gauge.spec_ticks() == ticks,
            *gauge.spec_needle() == Needles::Diamond,
            *gauge.spec_pin() == Pins::Solid,
            gauge.spec_style() == style,
            forall|layer: Layer| #[trigger] gauge.cache(layer).bounds() == None::<Size>,
            forall|layer: Layer| #[trigger] gauge.cache(layer).ops() == Seq::<DrawOp>::empty(),
    {
        let span: i64 = max as i64 - min as i64;
        let steps: i64 = span / 1000;
        let gauge = Gauge {
            value: 0,
            needle_gfx: Cache::new(),
            bg_gfx: Cache::new(),
            border_gfx: Cache::new(),
            ticks_gfx: Cache::new(),
            pin_gfx: Cache::new(),
            length: Angle::micro_turns(length as i64),
            rotate: Angle::micro_turns(rotate as i64),
            min,
            max,
            step: Angle { num: (length as i128) * 1000, den: span as u64 },
            steps: steps as usize,
            closing,
            ticks,
            needle: Box::new(Needles::Diamond),
            pin: Box::new(Pins::Solid),
            style,
        };
        assert forall|layer: Layer| #[trigger] gauge.cache(layer).bounds() == None::<Size> by {}
        assert forall|layer: Layer| #[trigger]
            gauge.cache(layer).ops() == Seq::<DrawOp>::empty() by {}
        gauge
    }
}

} // verus!
