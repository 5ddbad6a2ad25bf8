//! The graduation marks along the dial.
//!
//! Ticks sit at whole step indices. The tick of index `i` lies `i` steps
//! round from the start of the dial. Indices run from the first tick up to
//! the first index whose angle reaches the sweep of the dial, that index
//! included.

use vstd::prelude::*;
use crate::angle::Angle;
use crate::canvas::{
    stroked,
    Builder,
    Color,
    DrawOp,
    Elliptical,
    Frame,
    LineCap,
    Path,
    PathStep,
    Point,
    Size,
    Stroke,
    Text,
};
use crate::style::Appearance;
use crate::util::frame::{radius, radius_of};

verus! {

/// Marks drawn along the dial.
pub trait Tick {
    /// What `draw` puts on a surface of `size` for a dial that sweeps
    /// `gauge_length` in steps of `step_length`.
    spec fn marks(
        &self,
        style: Appearance,
        size: Size,
        gauge_length: Angle,
        step_length: Angle,
    ) -> Seq<DrawOp>;

    /// Draws the ticks onto `frame`, whose origin is the centre of the dial
    /// and whose +x axis is the start of the dial.
    fn draw(
        &self,
        frame: &mut Frame,
        style: &Appearance,
        gauge_length: Angle,
        step_length: Angle,
    )
        ensures
            final(frame).spec_size() == old(frame).spec_size(),
            final(frame).ops() == old(frame).ops() + self.marks(
                *style,
                old(frame).spec_size(),
                gauge_length,
                step_length,
            ),
    ;
}

/// `a / b` rounded up, for a positive `b`.
pub open spec fn ceil_div(a: int, b: int) -> int {
    (a + b - 1) / b
}

/// The index of the last tick of a run that starts at `first`: the least
/// index from `first` on whose angle reaches `sweep`. `None` where the angles
/// never reach it.
pub open spec fn last_index(first: u32, sweep: Angle, step: Angle) -> Option<int> {
    let a = sweep.num * step.den;
    let b = step.num * sweep.den;
    if first * b >= a {
        Some(first as int)
    } else if b > 0 {
        Some(ceil_div(a, b))
    } else {
        None
    }
}

/// The index of the last tick, where the dial can be stepped through: both
/// angles are narrow, the steps reach the sweep, and they do so at an index
/// of 32 bits.
pub open spec fn spec_last_tick(first: u32, sweep: Angle, step: Angle) -> Option<u32> {
    if sweep.narrow() && step.narrow() {
        match last_index(first, sweep, step) {
            Some(l) => if l <= u32::MAX {
                Some(l as u32)
            } else {
                None
            },
            None => None,
        }
    } else {
        None
    }
}

/// `last_index` is the least index from `first` on that reaches the sweep,
/// and where it is `None` no index from `first` on reaches it.
pub proof fn lemma_last_index_is_least(first: u32, sweep: Angle, step: Angle)
    requires
        sweep.wf(),
        step.wf(),
    ensures
        match last_index(first, sweep, step) {
            Some(l) => {
                &&& first <= l
                &&& l * step.num * sweep.den >= sweep.num * step.den
                &&& forall|j: int|
                    first <= j < l ==> !(#[trigger] (j * step.num) * sweep.den >= sweep.num
                        * step.den)
            },
            None => forall|j: int|
                first <= j ==> !(#[trigger] (j * step.num) * sweep.den >= sweep.num * step.den),
        },
{
    let a = sweep.num * step.den;
    let b = step.num * sweep.den;
    assert forall|j: int| #[trigger] (j * step.num) * sweep.den == j * b by {
        assert((j * step.num) * sweep.den == j * (step.num * sweep.den)) by (nonlinear_arith);
    }
    if first * b >= a {
    } else if b > 0 {
        let l = ceil_div(a, b);
        assert(l * b >= a && (l - 1) * b < a) by (nonlinear_arith)
            requires
                b > 0,
                l == (a + b - 1) / b,
        ;
        assert(first < l) by (nonlinear_arith)
            requires
                b > 0,
                first * b < a,
                l * b >= a,
        ;
        assert forall|j: int| first <= j < l implies !(#[trigger] (j * step.num) * sweep.den >= a) by {
            assert(j * b < a) by (nonlinear_arith)
                requires
                    b > 0,
                    j <= l - 1,
                    (l - 1) * b < a,
            ;
        }
    } else {
        assert forall|j: int| first <= j implies !(#[trigger] (j * step.num) * sweep.den >= a) by {
            assert(j * b < a) by (nonlinear_arith)
                requires
                    b <= 0,
                    first <= j,
                    first * b < a,
            ;
        }
    }
}

/// With a positive sweep and a positive step, a run of ticks has at most one
/// tick more than the number of steps, rounded up, that the sweep holds,
/// wherever the run starts.
pub proof fn lemma_tick_count_bounded(first: u32, sweep: Angle, step: Angle)
    requires
        sweep.wf(),
        step.wf(),
        sweep.num > 0,
        step.num > 0,
    ensures
        last_index(first, sweep, step) is Some,
        last_index(first, sweep, step)->0 - first + 1 <= ceil_div(
            sweep.num * step.den,
            step.num * sweep.den,
        ) + 1,
{
    let a = sweep.num * step.den;
    let b = step.num * sweep.den;
    assert(a > 0 && b > 0) by (nonlinear_arith)
        requires
            sweep.num > 0,
            step.num > 0,
            sweep.den > 0,
            step.den > 0,
            a == sweep.num * step.den,
            b == step.num * sweep.den,
    ;
    assert(ceil_div(a, b) >= 1) by (nonlinear_arith)
        requires
            a > 0,
            b > 0,
    ;
}

/// The index of the last tick of a run that starts at `first`, or `None`
/// where the dial cannot be stepped through.
#[verifier::when_used_as_spec(spec_last_tick)]
pub fn last_tick(first: u32, sweep: Angle, step: Angle) -> (last: Option<u32>)
    ensures
        last == spec_last_tick(first, sweep, step),
{
    if !sweep.is_narrow() || !step.is_narrow() {
        return None;
    }
    match reach_index(first, sweep, step) {
        Some(l) => if l <= 0xffff_ffff {
            Some(l as u32)
        } else {
            None
        },
        None => None,
    }
}

/// The least index from `first` on whose angle reaches `sweep`, if there is
/// one.
pub(crate) fn reach_index(first: u32, sweep: Angle, step: Angle) -> (index: Option<i128>)
    requires
        sweep.narrow(),
        step.narrow(),
    ensures
        match index {
            Some(l) => last_index(first, sweep, step) == Some(l as int) && first <= l
                <= 0x4000_0000_0000_0000 * 0xffff_ffff,
            None => last_index(first, sweep, step) == None::<int>,
        },
{
    assert(-0x4000_0000_0000_0000 * 0xffff_ffff <= sweep.num * step.den <= 0x4000_0000_0000_0000
        * 0xffff_ffff) by (nonlinear_arith)
        requires
            -0x4000_0000_0000_0000 <= sweep.num <= 0x4000_0000_0000_0000,
            0 < step.den <= 0xffff_ffff,
    ;
    assert(-0x4000_0000_0000_0000 * 0xffff_ffff <= step.num * sweep.den <= 0x4000_0000_0000_0000
        * 0xffff_ffff) by (nonlinear_arith)
        requires
            -0x4000_0000_0000_0000 <= step.num <= 0x4000_0000_0000_0000,
            0 < sweep.den <= 0xffff_ffff,
    ;
    let a: i128 = sweep.num * (step.den as i128);
    let b: i128 = step.num * (sweep.den as i128);
    assert(-0x4000_0000_0000_0000 * 0xffff_ffff * 0xffff_ffff <= first * b
        <= 0x4000_0000_0000_0000 * 0xffff_ffff * 0xffff_ffff) by (nonlinear_arith)
        requires
            -0x4000_0000_0000_0000 * 0xffff_ffff <= b <= 0x4000_0000_0000_0000 * 0xffff_ffff,
            0 <= first <= 0xffff_ffff,
    ;
    if (first as i128) * b >= a {
        Some(first as i128)
    } else if b > 0 {
        let l: i128 = (a + b - 1) / b;
        assert(first < l <= a) by (nonlinear_arith)
            requires
                b > 0,
                first * b < a,
                first >= 0,
                l == (a + b - 1) / (b as int),
        ;
        Some(l)
    } else {
        None
    }
}

/// Which of the two kinds a tick is.
#[derive(Clone, Copy, Debug, PartialEq, Eq, Structural)]
pub enum TickKind {
    Major,
    Minor,
}

/// Ticks of two kinds: a major tick at every multiple of `major_step`, and a
/// minor tick at every other multiple of `minor_step`. A step of zero has no
/// multiples.
#[derive(Clone, Copy, Debug, PartialEq, Eq, Structural)]
pub struct MajorMinor {
    /// Index of the first tick.
    pub first: u32,
    /// Number of steps between minor ticks.
    pub minor_step: u32,
    /// Number of steps between major ticks.
    pub major_step: u32,
    /// Length of a major tick, in thousandths of the tick radius.
    pub major_length: u32,
    /// Length of a minor tick, in thousandths of the tick radius.
    pub minor_length: u32,
}

/// Distance from the centre to the outer ends of the ticks.
pub open spec fn tick_radius(size: Size, style: Appearance) -> i128 {
    (radius_of(size) * style.tick_border_inset_ratio / 1000) as i128
}

/// Distance from the centre to the inner end of a tick of `length`
/// thousandths of `outer`.
pub open spec fn inner_radius(outer: i128, length: u32) -> i128 {
    (outer - outer * length / 1000) as i128
}

/// Thickness of a line of `ratio` thousandths of a hundredth of `outer`.
pub open spec fn line_width(outer: i128, ratio: u32) -> i128 {
    (outer * ratio / 100_000) as i128
}

/// The angle `index` steps of `step` round.
pub open spec fn angle_at(step: Angle, index: u32) -> Angle {
    Angle { num: (index * step.num) as i128, den: step.den }
}

/// A tick at `index`: a line from `inner` to `outer` along the tick's
/// angle, then the origin moved to its inner end and, if `label` is given,
/// the index written there in that colour, all between a save and a restore.
pub open spec fn tick_marks(
    inner: i128,
    outer: i128,
    stroke: Stroke,
    label: Option<Color>,
    step: Angle,
    index: u32,
) -> Seq<DrawOp> {
    let angle = angle_at(step, index);
    let inner_end = Point::Polar { radius: inner, angle };
    let outer_end = Point::Polar { radius: outer, angle };
    let line = seq![DrawOp::Save] + stroked(Path::spec_line(inner_end, outer_end), stroke) + seq![
        DrawOp::Translate(inner_end),
    ];
    match label {
        Some(color) => line + seq![
            DrawOp::FillText(Text { content: index, color }),
            DrawOp::Restore,
        ],
        None => line + seq![DrawOp::Restore],
    }
}

/// The arc drawn along the outer ends of the ticks: black, from the angle of
/// the first tick to the end of the sweep.
pub open spec fn rim_marks(outer: i128, width: i128, first: u32, sweep: Angle, step: Angle) -> Seq<
    DrawOp,
> {
    seq![DrawOp::Save] + stroked(
        seq![
            PathStep::Ellipse(
                Elliptical {
                    center: Point::spec_origin(),
                    radius: outer,
                    rotation: Angle { num: 0, den: 1 },
                    start_angle: angle_at(step, first),
                    end_angle: sweep,
                },
            ),
        ],
        Stroke { width, color: Color::spec_black(), line_cap: LineCap::Round },
    ) + seq![DrawOp::Restore]
}

impl MajorMinor {
    /// Ticks from index `first` on, with major ticks of `length` thousandths
    /// of the tick radius and minor ticks three quarters as long.
    pub fn boxed(first: u32, major_step: u32, minor_step: u32, length: u32) -> (ticks: Box<Self>)
        ensures
            *ticks == (MajorMinor {
                first,
                major_step,
                minor_step,
                major_length: length,
                minor_length: (length * 3 / 4) as u32,
            }),
    {
        let minor_length: u64 = (length as u64) * 3 / 4;
        Box::new(
            MajorMinor {
                first,
                major_step,
                minor_step,
                major_length: length,
                minor_length: minor_length as u32,
            },
        )
    }

    /// The kind of tick at `index`, if there is one. An index that is a
    /// multiple of both steps has a major tick only.
    pub open spec fn spec_classify(&self, index: u32) -> Option<TickKind> {
        if self.major_step != 0 && index % self.major_step == 0 {
            Some(TickKind::Major)
        } else if self.minor_step != 0 && index % self.minor_step == 0 {
            Some(TickKind::Minor)
        } else {
            None
        }
    }

    /// The kind of tick at `index`, if there is one.
    #[verifier::when_used_as_spec(spec_classify)]
    pub fn classify(&self, index: u32) -> (kind: Option<TickKind>)
        ensures
            kind == self.spec_classify(index),
    {
        if self.major_step != 0 && index % self.major_step == 0 {
            Some(TickKind::Major)
        } else if self.minor_step != 0 && index % self.minor_step == 0 {
            Some(TickKind::Minor)
        } else {
            None
        }
    }

    /// What is drawn at `index`: a major tick with its number if the style
    /// asks for labels, a minor tick without, or nothing.
    pub open spec fn mark_at(
        self,
        style: Appearance,
        outer: i128,
        step: Angle,
        index: u32,
    ) -> Seq<DrawOp> {
        match self.spec_classify(index) {
            Some(TickKind::Major) => tick_marks(
                inner_radius(outer, self.major_length),
                outer,
                Stroke {
                    width: line_width(outer, style.major_tick_width_ratio),
                    color: style.major_tick_color,
                    line_cap: LineCap::Round,
                },
                if style.tick_labels {
                    Some(style.tick_text_color)
                } else {
                    None
                },
                step,
                index,
            ),
            Some(TickKind::Minor) => tick_marks(
                inner_radius(outer, self.minor_length),
                outer,
                Stroke {
                    width: line_width(outer, style.minor_tick_width_ratio),
                    color: style.minor_tick_color,
                    line_cap: LineCap::Round,
                },
                None,
                step,
                index,
            ),
            None => Seq::empty(),
        }
    }

    /// What is drawn at the indices from `from` to `to`, both included, in
    /// rising order.
    pub open spec fn run(self, style: Appearance, outer: i128, step: Angle, from: int, to: int) -> Seq<
        DrawOp,
    >
        decreases to - from + 1,
    {
        if to < from || to > u32::MAX || to < 0 {
            Seq::empty()
        } else {
            self.run(style, outer, step, from, to - 1) + self.mark_at(style, outer, step, to as u32)
        }
    }

    /// An index that both steps divide has a major tick and no minor one: a
    /// single line is drawn there, in the major colour and width.
    pub proof fn lemma_major_wins(self, style: Appearance, outer: i128, step: Angle, index: u32)
        requires
            self.major_step != 0,
            self.minor_step != 0,
            index % self.major_step == 0,
            index % self.minor_step == 0,
        ensures
            self.spec_classify(index) == Some(TickKind::Major),
            lines(self.mark_at(style, outer, step, index)) == seq![
                Stroke {
                    width: line_width(outer, style.major_tick_width_ratio),
                    color: style.major_tick_color,
                    line_cap: LineCap::Round,
                },
            ],
    {
        let stroke = Stroke {
            width: line_width(outer, style.major_tick_width_ratio),
            color: style.major_tick_color,
            line_cap: LineCap::Round,
        };
        let angle = angle_at(step, index);
        let inner_end = Point::Polar { radius: inner_radius(outer, self.major_length), angle };
        let outer_end = Point::Polar { radius: outer, angle };
        let head = seq![
            DrawOp::Save,
            DrawOp::Outline(PathStep::MoveTo(inner_end)),
            DrawOp::Outline(PathStep::LineTo(outer_end)),
            DrawOp::Stroke(stroke),
            DrawOp::Translate(inner_end),
        ];
        let ops = self.mark_at(style, outer, step, index);
        reveal_with_fuel(lines, 8);
        if style.tick_labels {
            let all = head + seq![
                DrawOp::FillText(Text { content: index, color: style.tick_text_color }),
                DrawOp::Restore,
            ];
            assert(ops =~= all);
            assert(all.drop_last().drop_last() =~= head);
            assert(all.drop_last() =~= head.push(all[5]));
        } else {
            let all = head + seq![DrawOp::Restore];
            assert(ops =~= all);
            assert(all.drop_last() =~= head);
        }
        assert(head.drop_last() =~= seq![
            DrawOp::Save,
            DrawOp::Outline(PathStep::MoveTo(inner_end)),
            DrawOp::Outline(PathStep::LineTo(outer_end)),
            DrawOp::Stroke(stroke),
        ]);
        assert(head.drop_last().drop_last() =~= seq![
            DrawOp::Save,
            DrawOp::Outline(PathStep::MoveTo(inner_end)),
            DrawOp::Outline(PathStep::LineTo(outer_end)),
        ]);
        assert(head.drop_last().drop_last().drop_last() =~= seq![
            DrawOp::Save,
            DrawOp::Outline(PathStep::MoveTo(inner_end)),
        ]);
        assert(head.drop_last().drop_last().drop_last().drop_last() =~= seq![DrawOp::Save]);
        assert(head.drop_last().drop_last().drop_last().drop_last().drop_last() =~= Seq::<
            DrawOp,
        >::empty());
    }
}

/// The lines that `ops` stroke, in the order they are stroked.
pub open spec fn lines(ops: Seq<DrawOp>) -> Seq<Stroke>
    decreases ops.len(),
{
    if ops.len() == 0 {
        Seq::empty()
    } else {
        match ops.last() {
            DrawOp::Stroke(stroke) => lines(ops.drop_last()).push(stroke),
            _ => lines(ops.drop_last()),
        }
    }
}

/// Multiplies a length by a ratio of thousandths, rounding down.
pub(crate) fn scaled(len: i128, ratio: u32, per: i128) -> (r: i128)
    requires
        0 <= len <= 0x1_0000_0000_0000_0000,
        per > 0,
    ensures
        r == len * ratio / (per as int),
        0 <= r <= len * ratio,
        len * ratio <= 0x1_0000_0000_0000_0000 * 0xffff_ffff,
{
    assert(0 <= len * ratio <= 0x1_0000_0000_0000_0000 * 0xffff_ffff) by (nonlinear_arith)
        requires
            0 <= len <= 0x1_0000_0000_0000_0000,
            0 <= ratio <= 0xffff_ffff,
    ;
    let product: i128 = len * (ratio as i128);
    assert(0 <= product / per <= product) by (nonlinear_arith)
        requires
            product >= 0,
            per > 0,
    ;
    product / per
}

/// Draws one tick at `index`.
pub(crate) fn draw_tick(
    frame: &mut Frame,
    inner: i128,
    outer: i128,
    stroke: Stroke,
    label: Option<Color>,
    step: Angle,
    index: u32,
)
    requires
        step.narrow(),
    ensures
        final(frame).spec_size() == old(frame).spec_size(),
        final(frame).ops() == old(frame).ops() + tick_marks(
            inner,
            outer,
            stroke,
            label,
            step,
            index,
        ),
{
    let angle = step.times(index);
    let inner_end = Point::Polar { radius: inner, angle };
    let outer_end = Point::Polar { radius: outer, angle };
    let path = Path::line(inner_end, outer_end);
    frame.save();
    frame.stroke(&path, stroke);
    frame.translate(inner_end);
    match label {
        Some(color) => {
            frame.fill_text(Text { content: index, color });
        },
        None => {},
    }
    frame.restore();
    assert(frame.ops() =~= old(frame).ops() + tick_marks(inner, outer, stroke, label, step, index));
}

impl Tick for MajorMinor {
    /// The ticks from `first` to the last index in rising order, then the
    /// rim; nothing where the dial cannot be stepped through.
    open spec fn marks(
        &self,
        style: Appearance,
        size: Size,
        gauge_length: Angle,
        step_length: Angle,
    ) -> Seq<DrawOp> {
        let outer = tick_radius(size, style);
        match spec_last_tick(self.first, gauge_length, step_length) {
            Some(last) => self.run(style, outer, step_length, self.first as int, last as int)
                + rim_marks(
                outer,
                line_width(outer, style.tick_border_width_ratio),
                self.first,
                gauge_length,
                step_length,
            ),
            None => Seq::empty(),
        }
    }

    fn draw(
        &self,
        frame: &mut Frame,
        style: &Appearance,
        gauge_length: Angle,
        step_length: Angle,
    ) {
        let last = match last_tick(self.first, gauge_length, step_length) {
            Some(last) => last,
            None => {
                assert(frame.ops() =~= old(frame).ops() + Seq::<DrawOp>::empty());
                return ;
            },
        };
        proof {
            lemma_last_index_is_least(self.first, gauge_length, step_length);
        }
        let frame_radius = radius(frame);
        let outer = scaled(frame_radius as i128, style.tick_border_inset_ratio, 1000);
        assert(outer <= 0xffff_ffff * 0xffff_ffff) by (nonlinear_arith)
            requires
                outer <= frame_radius * style.tick_border_inset_ratio,
                frame_radius <= 0xffff_ffff,
                style.tick_border_inset_ratio <= 0xffff_ffff,
        ;
        let major = outer - scaled(outer, self.major_length, 1000);
        let minor = outer - scaled(outer, self.minor_length, 1000);
        let major_stroke = Stroke {
            width: scaled(outer, style.major_tick_width_ratio, 100_000),
            color: style.major_tick_color,
            line_cap: LineCap::Round,
        };
        let minor_stroke = Stroke {
            width: scaled(outer, style.minor_tick_width_ratio, 100_000),
            color: style.minor_tick_color,
            line_cap: LineCap::Round,
        };
        let label = if style.tick_labels {
            Some(style.tick_text_color)
        } else {
            None
        };
        let ghost before = frame.ops();
        let mut i = self.first;
        assert(frame.ops() =~= before + self.run(*style, outer, step_length, self.first as int, i - 1));
        loop
            invariant_except_break
                frame.ops() == before + self.run(*style, outer, step_length, self.first as int, i - 1),
            invariant
                self.first <= i <= last,
                frame.spec_size() == old(frame).spec_size(),
                step_length.narrow(),
                gauge_length.narrow(),
                outer == tick_radius(old(frame).spec_size(), *style),
                major == inner_radius(outer, self.major_length),
                minor == inner_radius(outer, self.minor_length),
                major_stroke == (Stroke {
                    width: line_width(outer, style.major_tick_width_ratio),
                    color: style.major_tick_color,
                    line_cap: LineCap::Round,
                }),
                minor_stroke == (Stroke {
                    width: line_width(outer, style.minor_tick_width_ratio),
                    color: style.minor_tick_color,
                    line_cap: LineCap::Round,
                }),
                label == (if style.tick_labels {
                    Some(style.tick_text_color)
                } else {
                    None::<Color>
                }),
                last_index(self.first, gauge_length, step_length) == Some(last as int),
                forall|j: int|
                    self.first <= j < last ==> !(#[trigger] (j * step_length.num) * gauge_length.den
                        >= gauge_length.num * step_length.den),
                last * step_length.num * gauge_length.den >= gauge_length.num * step_length.den,
            ensures
                frame.ops() == before + self.run(
                    *style,
                    outer,
                    step_length,
                    self.first as int,
                    last as int,
                ),
            decreases last - i,
        {
            match self.classify(i) {
                Some(TickKind::Major) => {
                    draw_tick(frame, major, outer, major_stroke, label, step_length, i);
                },
                Some(TickKind::Minor) => {
                    draw_tick(frame, minor, outer, minor_stroke, None, step_length, i);
                },
                None => {},
            }
            assert(frame.ops() =~= before + self.run(
                *style,
                outer,
                step_length,
                self.first as int,
                i as int,
            ));
            if step_length.reaches(i, gauge_length) {
                assert(i == last);
                break ;
            }
            assert(i < last);
            i += 1;
        }
        let width = scaled(outer, style.tick_border_width_ratio, 100_000);
        let mut builder = Builder::new();
        builder.ellipse(
            Elliptical {
                center: Point::origin(),
                radius: outer,
                rotation: Angle::micro_turns(0),
                start_angle: step_length.times(self.first),
                end_angle: gauge_length,
            },
        );
        let rim = builder.build();
        frame.save();
        frame.stroke(&rim, Stroke { width, color: Color::black(), line_cap: LineCap::Round });
        frame.restore();
        assert(frame.ops() =~= old(frame).ops() + self.marks(
            *style,
            old(frame).spec_size(),
            gauge_length,
            step_length,
        ));
    }
}

} // verus!
