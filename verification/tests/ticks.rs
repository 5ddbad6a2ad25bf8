use iced_gauges::angle::Angle;
use iced_gauges::canvas::{
    Color, DrawOp, Elliptical, Frame, LineCap, PathStep, Point, Size, Stroke, Text,
};
use iced_gauges::style::{light_default, Appearance};
use iced_gauges::tick::{last_tick, MajorMinor, Tick, TickKind};

const BLACK: Color = Color { r: 0, g: 0, b: 0, a: 255 };
const WHITE: Color = Color { r: 255, g: 255, b: 255, a: 255 };

fn whole(n: i128) -> Angle {
    Angle { num: n, den: 1 }
}

fn frame() -> Frame {
    Frame::new(Size { width: 500_000, height: 500_000 })
}

fn recorded(frame: &Frame) -> Vec<DrawOp> {
    (0..frame.len()).map(|i| frame.op(i)).collect()
}

fn tick(inner: i128, stroke: Stroke, step: Angle, index: u32, label: Option<Color>) -> Vec<DrawOp> {
    let angle = Angle { num: i128::from(index) * step.num, den: step.den };
    let inner_end = Point::Polar { radius: inner, angle };
    let outer_end = Point::Polar { radius: 200_000, angle };
    let mut ops = vec![
        DrawOp::Save,
        DrawOp::Outline(PathStep::MoveTo(inner_end)),
        DrawOp::Outline(PathStep::LineTo(outer_end)),
        DrawOp::Stroke(stroke),
        DrawOp::Translate(inner_end),
    ];
    if let Some(color) = label {
        ops.push(DrawOp::FillText(Text { content: index, color }));
    }
    ops.push(DrawOp::Restore);
    ops
}

fn rim(first: u32, sweep: Angle, step: Angle) -> Vec<DrawOp> {
    vec![
        DrawOp::Save,
        DrawOp::Outline(PathStep::Ellipse(Elliptical {
            center: Point::Cartesian { x: 0, y: 0 },
            radius: 200_000,
            rotation: whole(0),
            start_angle: Angle { num: i128::from(first) * step.num, den: step.den },
            end_angle: sweep,
        })),
        DrawOp::Stroke(Stroke { width: 2_000, color: BLACK, line_cap: LineCap::Round }),
        DrawOp::Restore,
    ]
}

#[test]
fn boxed_makes_minor_ticks_three_quarters_as_long() {
    let ticks = MajorMinor::boxed(2, 25, 5, 300);
    assert_eq!(
        *ticks,
        MajorMinor { first: 2, major_step: 25, minor_step: 5, major_length: 300, minor_length: 225 }
    );
    assert_eq!(MajorMinor::boxed(0, 1, 1, 1_001).minor_length, 750);
    assert_eq!(MajorMinor::boxed(0, 1, 1, u32::MAX).minor_length, 3_221_225_471);
    assert_eq!(MajorMinor::boxed(0, 1, 1, 0).minor_length, 0);
}

#[test]
fn major_wins_where_both_steps_divide() {
    let ticks = MajorMinor::boxed(0, 25, 5, 300);
    assert_eq!(ticks.classify(0), Some(TickKind::Major));
    assert_eq!(ticks.classify(50), Some(TickKind::Major));
    assert_eq!(ticks.classify(75), Some(TickKind::Major));
    assert_eq!(ticks.classify(5), Some(TickKind::Minor));
    assert_eq!(ticks.classify(60), Some(TickKind::Minor));
    assert_eq!(ticks.classify(3), None);
    assert_eq!(ticks.classify(26), None);
}

#[test]
fn a_step_of_zero_has_no_ticks() {
    let minor_only = MajorMinor::boxed(0, 0, 5, 300);
    assert_eq!(minor_only.classify(0), Some(TickKind::Minor));
    assert_eq!(minor_only.classify(10), Some(TickKind::Minor));
    assert_eq!(minor_only.classify(11), None);
    let major_only = MajorMinor::boxed(0, 4, 0, 300);
    assert_eq!(major_only.classify(8), Some(TickKind::Major));
    assert_eq!(major_only.classify(9), None);
    let none = MajorMinor::boxed(0, 0, 0, 300);
    assert_eq!(none.classify(0), None);
}

#[test]
fn one_tick_is_drawn_where_both_steps_divide() {
    let ticks = MajorMinor::boxed(50, 25, 5, 300);
    let mut f = frame();
    // One step of the dial takes the run from index 50 to its end.
    ticks.draw(&mut f, &light_default(), whole(50), whole(1));
    let ops = recorded(&f);
    let major = Stroke { width: 2_000, color: BLACK, line_cap: LineCap::Round };
    let mut expected = tick(140_000, major, whole(1), 50, Some(BLACK));
    expected.extend(rim(50, whole(50), whole(1)));
    assert_eq!(ops, expected);
}

#[test]
fn the_run_ends_at_the_first_index_that_reaches_the_sweep() {
    assert_eq!(last_tick(0, whole(300_000), whole(3_000)), Some(100));
    assert_eq!(last_tick(0, whole(10), whole(3)), Some(4));
    assert_eq!(last_tick(2, whole(10), whole(3)), Some(4));
    assert_eq!(last_tick(4, whole(10), whole(3)), Some(4));
    assert_eq!(last_tick(7, whole(10), whole(3)), Some(7));
    assert_eq!(last_tick(0, whole(9), whole(3)), Some(3));
    // A step given as a fraction: 3/2 per index against a sweep of 7/3.
    assert_eq!(last_tick(0, Angle { num: 7, den: 3 }, Angle { num: 3, den: 2 }), Some(2));
    let minute = Angle { num: 300_000_000, den: 60_000 };
    assert_eq!(last_tick(0, whole(300_000), minute), Some(60));
}

#[test]
fn the_run_has_at_most_one_tick_more_than_the_sweep_has_steps() {
    for (sweep, step) in [(10i128, 3i128), (9, 3), (1, 1), (1, 1_000), (1_000_000, 7), (5, 5)] {
        let steps = (sweep + step - 1) / step;
        for first in [0u32, 1, 3, 4, 1_000] {
            let last = last_tick(first, whole(sweep), whole(step)).unwrap();
            let iterations = i128::from(last - first) + 1;
            assert!(iterations <= steps + 1);
            assert!(iterations >= 1);
            if first == 0 {
                assert_eq!(iterations, steps + 1);
            }
        }
    }
}

#[test]
fn a_sweep_of_nothing_ends_the_run_at_once() {
    assert_eq!(last_tick(3, whole(0), whole(0)), Some(3));
    assert_eq!(last_tick(3, whole(0), whole(5)), Some(3));
    assert_eq!(last_tick(3, whole(-4), whole(-1)), Some(3));
}

#[test]
fn a_dial_that_cannot_be_stepped_through_has_no_last_tick() {
    // The step never reaches the sweep.
    assert_eq!(last_tick(0, whole(10), whole(0)), None);
    assert_eq!(last_tick(0, whole(10), whole(-1)), None);
    assert_eq!(last_tick(5, whole(-4), whole(-1)), None);
    // A denominator of zero, or a numerator too large to step with.
    assert_eq!(last_tick(0, Angle { num: 1, den: 0 }, whole(1)), None);
    assert_eq!(last_tick(0, whole(1), Angle { num: 1, den: 0 }), None);
    assert_eq!(last_tick(0, whole(1), Angle { num: 1, den: 4_294_967_296 }), None);
    assert_eq!(last_tick(0, whole(4_611_686_018_427_387_905), whole(1)), None);
    // The last index would not fit in 32 bits.
    assert_eq!(last_tick(0, whole(4_294_967_296), whole(1)), None);
    assert_eq!(last_tick(0, whole(4_294_967_295), whole(1)), Some(4_294_967_295));

    let ticks = MajorMinor::boxed(0, 25, 5, 300);
    let mut f = frame();
    ticks.draw(&mut f, &light_default(), whole(10), whole(0));
    assert_eq!(f.len(), 0);
}

#[test]
fn major_and_minor_ticks_and_the_rim_are_drawn_in_order() {
    let ticks = MajorMinor::boxed(0, 2, 1, 300);
    let step = Angle { num: 300_000_000, den: 100_000 };
    let sweep = whole(6_000);
    let mut f = frame();
    ticks.draw(&mut f, &light_default(), sweep, step);
    let major = Stroke { width: 2_000, color: BLACK, line_cap: LineCap::Round };
    let minor = Stroke { width: 1_600, color: WHITE, line_cap: LineCap::Round };
    let mut expected = Vec::new();
    expected.extend(tick(140_000, major, step, 0, Some(BLACK)));
    expected.extend(tick(155_000, minor, step, 1, None));
    expected.extend(tick(140_000, major, step, 2, Some(BLACK)));
    expected.extend(rim(0, sweep, step));
    assert_eq!(recorded(&f), expected);
    assert_eq!(f.size(), Size { width: 500_000, height: 500_000 });
}

#[test]
fn ticks_are_added_after_what_the_frame_holds() {
    let ticks = MajorMinor::boxed(1, 0, 1, 500);
    let mut f = frame();
    f.save();
    ticks.draw(&mut f, &light_default(), whole(1), whole(1));
    let ops = recorded(&f);
    assert_eq!(ops[0], DrawOp::Save);
    let minor = Stroke { width: 1_600, color: WHITE, line_cap: LineCap::Round };
    // A major length of 500 gives minor ticks of 375 thousandths.
    let mut expected = vec![DrawOp::Save];
    expected.extend(tick(125_000, minor, whole(1), 1, None));
    expected.extend(rim(1, whole(1), whole(1)));
    assert_eq!(ops, expected);
}

#[test]
fn labels_follow_the_style() {
    let plain = Appearance { tick_labels: false, ..light_default() };
    let ticks = MajorMinor::boxed(0, 1, 0, 300);
    let mut f = frame();
    ticks.draw(&mut f, &plain, whole(2), whole(1));
    assert!(recorded(&f).iter().all(|op| !matches!(op, DrawOp::FillText(_))));

    let red = Color { r: 200, g: 0, b: 0, a: 255 };
    let coloured = Appearance { tick_text_color: red, ..light_default() };
    let mut f = frame();
    ticks.draw(&mut f, &coloured, whole(2), whole(1));
    let labels: Vec<Text> = recorded(&f)
        .iter()
        .filter_map(|op| match op {
            DrawOp::FillText(text) => Some(*text),
            _ => None,
        })
        .collect();
    assert_eq!(
        labels,
        vec![
            Text { content: 0, color: red },
            Text { content: 1, color: red },
            Text { content: 2, color: red },
        ]
    );
}

#[test]
fn tick_lengths_and_widths_follow_the_frame_and_the_style() {
    let look = Appearance {
        tick_border_inset_ratio: 500,
        major_tick_width_ratio: 3_000,
        tick_border_width_ratio: 250,
        major_tick_color: WHITE,
        ..light_default()
    };
    let ticks = MajorMinor::boxed(0, 1, 0, 1_000);
    let mut f = Frame::new(Size { width: 301_000, height: 200_001 });
    ticks.draw(&mut f, &look, whole(0), whole(1));
    let ops = recorded(&f);
    // Frame radius 100_000, so ticks end 50_000 out and start at the centre.
    let at = whole(0);
    assert_eq!(ops[1], DrawOp::Outline(PathStep::MoveTo(Point::Polar { radius: 0, angle: at })));
    assert_eq!(ops[2], DrawOp::Outline(PathStep::LineTo(Point::Polar { radius: 50_000, angle: at })));
    let line = Stroke { width: 1_500, color: WHITE, line_cap: LineCap::Round };
    assert_eq!(ops[3], DrawOp::Stroke(line));
    let rim = Stroke { width: 125, color: BLACK, line_cap: LineCap::Round };
    assert_eq!(ops[ops.len() - 2], DrawOp::Stroke(rim));
}
