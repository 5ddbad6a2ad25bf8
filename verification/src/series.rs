//! Ticks laid out as independent series.
//!
//! A series puts one kind of tick at every `every`-th step index from
//! `first` on. Several series drawn one after the other give a dial with as
//! many kinds of tick as are wanted.

use vstd::prelude::*;
use crate::angle::Angle;
use crate::canvas::{Color, DrawOp, Frame, LineCap, Size, Stroke};
use crate::style::Appearance;
use crate::tick::{
    ceil_div,
    draw_tick,
    inner_radius,
    last_index,
    lemma_last_index_is_least,
    line_width,
    reach_index,
    scaled,
    tick_marks,
    tick_radius,
    Tick,
};
use crate::util::frame::radius;

verus! {

/// One series of like ticks.
#[derive(Clone, Copy, Debug, PartialEq, Eq, Structural)]
pub struct Ticks {
    /// Index of the first tick.
    pub first: u32,
    /// Number of steps from one tick to the next.
    pub every: u32,
    /// Length of a tick, in thousandths of the tick radius.
    pub length: u32,
    /// Thickness of a tick, as a ratio of a hundredth of the tick radius.
    pub width: u32,
    pub color: Color,
    /// Whether each tick carries its index.
    pub label: bool,
    /// Where not zero, every `skip`-th tick of the series is left out. The
    /// ticks that follow keep their indices.
    pub skip: u32,
    /// Where given, the series ends at the first of its indices that is not
    /// below this one, even if the sweep is not yet reached.
    pub steps: Option<u32>,
}

/// The least index from `first` on at which a series ends: where its angle
/// reaches the sweep or, if a bound is given, where the index reaches the
/// bound, whichever comes first. `None` where neither ever happens.
pub open spec fn stop_index(first: u32, bound: Option<u32>, sweep: Angle, step: Angle) -> Option<
    int,
> {
    match (last_index(first, sweep, step), bound) {
        (Some(l), Some(n)) => Some(
            if l <= n {
                l
            } else if n >= first {
                n as int
            } else {
                first as int
            },
        ),
        (Some(l), None) => Some(l),
        (None, Some(n)) => Some(
            if n >= first {
                n as int
            } else {
                first as int
            },
        ),
        (None, None) => None,
    }
}

/// `stop_index` is the least index from `first` on that reaches the sweep or
/// the bound, and where it is `None` no index from `first` on reaches either.
pub proof fn lemma_stop_index_is_least(first: u32, bound: Option<u32>, sweep: Angle, step: Angle)
    requires
        sweep.wf(),
        step.wf(),
    ensures
        match stop_index(first, bound, sweep, step) {
            Some(t) => {
                &&& first <= t
                &&& (t * step.num * sweep.den >= sweep.num * step.den || (bound is Some && t
                    >= bound->0))
                &&& forall|j: int|
                    first <= j < t ==> !(#[trigger] (j * step.num) * sweep.den >= sweep.num
                        * step.den) && !(bound is Some && j >= bound->0)
            },
            None => bound is None && forall|j: int|
                first <= j ==> !(#[trigger] (j * step.num) * sweep.den >= sweep.num * step.den),
        },
{
    lemma_last_index_is_least(first, sweep, step);
}

impl Ticks {
    /// How many ticks follow the first before the series ends, where the
    /// dial can be stepped through: both angles are narrow, the series
    /// reaches its end, and its last index has 32 bits.
    pub open spec fn spec_last_ordinal(&self, sweep: Angle, step: Angle) -> Option<u32> {
        if sweep.narrow() && step.narrow() {
            match stop_index(self.first, self.steps, sweep, step) {
                Some(t) => if t == self.first {
                    Some(0u32)
                } else if self.every == 0 {
                    None
                } else {
                    let k = ceil_div(t - self.first, self.every as int);
                    if self.first + k * self.every <= u32::MAX {
                        Some(k as u32)
                    } else {
                        None
                    }
                },
                None => None,
            }
        } else {
            None
        }
    }

    /// The step index of the tick that `ordinal` ticks follow the first.
    pub open spec fn index_at(&self, ordinal: int) -> int {
        self.first + ordinal * self.every
    }

    /// Whether the tick that `ordinal` ticks follow the first is left out.
    pub open spec fn skipped(&self, ordinal: int) -> bool {
        self.skip != 0 && (ordinal + 1) % (self.skip as int) == 0
    }

    /// What is drawn for the tick that `ordinal` ticks follow the first.
    pub open spec fn mark_at(&self, outer: i128, text: Color, step: Angle, ordinal: int) -> Seq<
        DrawOp,
    > {
        if self.skipped(ordinal) {
            Seq::empty()
        } else {
            tick_marks(
                inner_radius(outer, self.length),
                outer,
                Stroke {
                    width: line_width(outer, self.width),
                    color: self.color,
                    line_cap: LineCap::Round,
                },
                if self.label {
                    Some(text)
                } else {
                    None
                },
                step,
                self.index_at(ordinal) as u32,
            )
        }
    }

    /// What is drawn for the first tick and the `to` ticks after it, in
    /// rising order.
    pub open spec fn run(&self, outer: i128, text: Color, step: Angle, to: int) -> Seq<DrawOp>
        decreases to + 1,
    {
        if to < 0 {
            Seq::empty()
        } else {
            self.run(outer, text, step, to - 1) + self.mark_at(outer, text, step, to)
        }
    }

    /// The ticks of the series before its end lie short of both the sweep
    /// and the bound, and its last tick does not.
    pub proof fn lemma_series_ends_where_it_stops(&self, sweep: Angle, step: Angle)
        requires
            self.spec_last_ordinal(sweep, step) is Some,
        ensures
            stop_index(self.first, self.steps, sweep, step) is Some,
            self.index_at(self.spec_last_ordinal(sweep, step)->0 as int) >= stop_index(
                self.first,
                self.steps,
                sweep,
                step,
            )->0,
            forall|k: int|
                0 <= k < self.spec_last_ordinal(sweep, step)->0 ==> #[trigger] self.index_at(k)
                    < stop_index(self.first, self.steps, sweep, step)->0,
            self.index_at(self.spec_last_ordinal(sweep, step)->0 as int) <= u32::MAX,
    {
        lemma_stop_index_is_least(self.first, self.steps, sweep, step);
        let t = stop_index(self.first, self.steps, sweep, step)->0;
        if t != self.first {
            let e = self.every as int;
            let d = t - self.first;
            let last = ceil_div(d, e);
            assert(last * e >= d && (last - 1) * e < d && 0 <= last <= last * e) by (nonlinear_arith)
                requires
                    e > 0,
                    d > 0,
                    last == (d + e - 1) / e,
            ;
            assert(self.spec_last_ordinal(sweep, step)->0 == last);
            assert forall|k: int| 0 <= k < last implies #[trigger] self.index_at(k) < t by {
                assert(k * e < d) by (nonlinear_arith)
                    requires
                        e > 0,
                        k <= last - 1,
                        (last - 1) * e < d,
                ;
            }
        }
    }

    /// How many ticks follow the first before the series ends, or `None`
    /// where the dial cannot be stepped through.
    #[verifier::when_used_as_spec(spec_last_ordinal)]
    pub fn last_ordinal(&self, sweep: Angle, step: Angle) -> (last: Option<u32>)
        ensures
            last == self.spec_last_ordinal(sweep, step),
    {
        if !sweep.is_narrow() || !step.is_narrow() {
            return None;
        }
        let reached = reach_index(self.first, sweep, step);
        let stop: i128 = match (reached, self.steps) {
            (Some(l), Some(n)) => if l <= n as i128 {
                l
            } else if n >= self.first {
                n as i128
            } else {
                self.first as i128
            },
            (Some(l), None) => l,
            (None, Some(n)) => if n >= self.first {
                n as i128
            } else {
                self.first as i128
            },
            (None, None) => {
                return None;
            },
        };
        if stop == self.first as i128 {
            return Some(0);
        }
        if self.every == 0 {
            return None;
        }
        let e: i128 = self.every as i128;
        let d: i128 = stop - self.first as i128;
        let k: i128 = (d + e - 1) / e;
        assert(k * e >= d && 0 <= k <= d) by (nonlinear_arith)
            requires
                e > 0,
                d > 0,
                k == (d + e - 1) / (e as int),
        ;
        if stop > 0xffff_ffff {
            return None;
        }
        assert(0 <= k * e <= 0xffff_ffff * 0xffff_ffff) by (nonlinear_arith)
            requires
                0 <= k <= 0xffff_ffff,
                0 < e <= 0xffff_ffff,
        ;
        if self.first as i128 + k * e <= 0xffff_ffff {
            Some(k as u32)
        } else {
            None
        }
    }
}

impl Tick for Ticks {
    /// The ticks of the series in rising order, with the indices of those
    /// that are labelled in the style's text colour; nothing where the dial
    /// cannot be stepped through.
    open spec fn marks(
        &self,
        style: Appearance,
        size: Size,
        gauge_length: Angle,
        step_length: Angle,
    ) -> Seq<DrawOp> {
        match self.spec_last_ordinal(gauge_length, step_length) {
            Some(last) => self.run(
                tick_radius(size, style),
                style.tick_text_color,
                step_length,
                last as int,
            ),
            None => Seq::empty(),
        }
    }

    fn draw(
        &self,
        frame: &mut Frame,
        style: &Appearance,
        gauge_length: Angle,
        step_length: Angle,
    ) {
        let last = match self.last_ordinal(gauge_length, step_length) {
            Some(last) => last,
            None => {
                assert(frame.ops() =~= old(frame).ops() + Seq::<DrawOp>::empty());
                return ;
            },
        };
        proof {
            self.lemma_series_ends_where_it_stops(gauge_length, step_length);
        }
        let frame_radius = radius(frame);
        let outer = scaled(frame_radius as i128, style.tick_border_inset_ratio, 1000);
        assert(outer <= 0xffff_ffff * 0xffff_ffff) by (nonlinear_arith)
            requires
                outer <= frame_radius * style.tick_border_inset_ratio,
                frame_radius <= 0xffff_ffff,
                style.tick_border_inset_ratio <= 0xffff_ffff,
        ;
        let inner = outer - scaled(outer, self.length, 1000);
        let stroke = Stroke {
            width: scaled(outer, self.width, 100_000),
            color: self.color,
            line_cap: LineCap::Round,
        };
        let label = if self.label {
            Some(style.tick_text_color)
        } else {
            None
        };
        let ghost before = frame.ops();
        let ghost text = style.tick_text_color;
        let mut k: u32 = 0;
        assert(frame.ops() =~= before + self.run(outer, text, step_length, k - 1));
        loop
            invariant_except_break
                frame.ops() == before + self.run(outer, text, step_length, k - 1),
            invariant
                0 <= k <= last,
                self.first + last * self.every <= u32::MAX,
                frame.spec_size() == old(frame).spec_size(),
                step_length.narrow(),
                outer == tick_radius(old(frame).spec_size(), *style),
                inner == inner_radius(outer, self.length),
                stroke == (Stroke {
                    width: line_width(outer, self.width),
                    color: self.color,
                    line_cap: LineCap::Round,
                }),
                text == style.tick_text_color,
                label == (if self.label {
                    Some(text)
                } else {
                    None::<Color>
                }),
            ensures
                frame.ops() == before + self.run(outer, text, step_length, last as int),
            decreases last - k,
        {
            assert(0 <= k * self.every <= last * self.every) by (nonlinear_arith)
                requires
                    0 <= k <= last,
                    0 <= self.every,
            ;
            if !(self.skip != 0 && (k as u64 + 1) % (self.skip as u64) == 0) {
                let index = self.first as u64 + (k as u64) * (self.every as u64);
                draw_tick(frame, inner, outer, stroke, label, step_length, index as u32);
            }
            assert(frame.ops() =~= before + self.run(outer, text, step_length, k as int));
            if k >= last {
                break ;
            }
            k += 1;
        }
    }
}

/// What the first `n` of `series` draw, one series after the other.
pub open spec fn series_marks(
    series: Seq<Ticks>,
    style: Appearance,
    size: Size,
    gauge_length: Angle,
    step_length: Angle,
    n: int,
) -> Seq<DrawOp>
    decreases n,
{
    if n <= 0 {
        Seq::empty()
    } else {
        series_marks(series, style, size, gauge_length, step_length, n - 1) + series[n - 1].marks(
            style,
            size,
            gauge_length,
            step_length,
        )
    }
}

impl Tick for Vec<Ticks> {
    /// Every series in turn.
    open spec fn marks(
        &self,
        style: Appearance,
        size: Size,
        gauge_length: Angle,
        step_length: Angle,
    ) -> Seq<DrawOp> {
        series_marks(self@, style, size, gauge_length, step_length, self@.len() as int)
    }

    fn draw(
        &self,
        frame: &mut Frame,
        style: &Appearance,
        gauge_length: Angle,
        step_length: Angle,
    ) {
        let ghost before = frame.ops();
        let ghost size = frame.spec_size();
        let n = self.len();
        let mut i: usize = 0;
        assert(frame.ops() =~= before + series_marks(
            self@,
            *style,
            size,
            gauge_length,
            step_length,
            0,
        ));
        while i < n
            invariant
                n == self@.len(),
                i <= n,
                frame.spec_size() == size,
                frame.ops() == before + series_marks(
                    self@,
                    *style,
                    size,
                    gauge_length,
                    step_length,
                    i as int,
                ),
            decreases n - i,
        {
            self[i].draw(frame, style, gauge_length, step_length);
            i += 1;
            assert(frame.ops() =~= before + series_marks(
                self@,
                *style,
                size,
                gauge_length,
                step_length,
                i as int,
            ));
        }
    }
}

} // verus!
