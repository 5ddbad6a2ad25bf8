use iced_gauges::angle::Angle;
use iced_gauges::canvas::{Color, DrawOp, Frame, LineCap, PathStep, Point, Size, Stroke, Text};
use iced_gauges::needle::Needles;
use iced_gauges::pin::Pins;
use iced_gauges::round::{Closing, Gauge, Layer};
use iced_gauges::series::Ticks;
use iced_gauges::style::{light_default, Style, Theme};
use iced_gauges::tick::Tick;

const RED: Color = Color { r: 200, g: 0, b: 0, a: 255 };
const BLACK: Color = Color { r: 0, g: 0, b: 0, a: 255 };

fn whole(n: i128) -> Angle {
    Angle { num: n, den: 1 }
}

fn fives() -> Ticks {
    Ticks { first: 0, every: 5, length: 100, width: 800, color: RED, label: true, skip: 0, steps: None }
}

fn recorded(frame: &Frame) -> Vec<DrawOp> {
    (0..frame.len()).map(|i| frame.op(i)).collect()
}

fn labels(ops: &[DrawOp]) -> Vec<u32> {
    ops.iter()
        .filter_map(|op| match op {
            DrawOp::FillText(text) => Some(text.content),
            _ => None,
        })
        .collect()
}

fn drawn(ticks: &Ticks, sweep: Angle, step: Angle) -> Vec<DrawOp> {
    let mut frame = Frame::new(Size { width: 500_000, height: 500_000 });
    ticks.draw(&mut frame, &light_default(), sweep, step);
    recorded(&frame)
}

#[test]
fn a_series_steps_by_its_interval_up_to_the_sweep() {
    let ticks = fives();
    assert_eq!(ticks.last_ordinal(whole(20), whole(1)), Some(4));
    assert_eq!(labels(&drawn(&ticks, whole(20), whole(1))), vec![0, 5, 10, 15, 20]);
    // The first index that reaches 21 is one interval further on.
    assert_eq!(ticks.last_ordinal(whole(21), whole(1)), Some(5));
    assert_eq!(labels(&drawn(&ticks, whole(21), whole(1))), vec![0, 5, 10, 15, 20, 25]);
}

#[test]
fn a_tick_of_a_series_is_one_line_with_its_index() {
    let ticks = Ticks { first: 3, ..fives() };
    let ops = drawn(&ticks, whole(3), whole(1));
    let angle = whole(3);
    let inner_end = Point::Polar { radius: 180_000, angle };
    let outer_end = Point::Polar { radius: 200_000, angle };
    assert_eq!(
        ops,
        vec![
            DrawOp::Save,
            DrawOp::Outline(PathStep::MoveTo(inner_end)),
            DrawOp::Outline(PathStep::LineTo(outer_end)),
            DrawOp::Stroke(Stroke { width: 1_600, color: RED, line_cap: LineCap::Round }),
            DrawOp::Translate(inner_end),
            DrawOp::FillText(Text { content: 3, color: BLACK }),
            DrawOp::Restore,
        ]
    );
}

#[test]
fn skipped_ticks_keep_the_numbering_of_the_rest() {
    let ticks = Ticks { skip: 2, ..fives() };
    assert_eq!(ticks.last_ordinal(whole(20), whole(1)), Some(4));
    assert_eq!(labels(&drawn(&ticks, whole(20), whole(1))), vec![0, 10, 20]);
    let thirds = Ticks { skip: 3, every: 1, ..fives() };
    assert_eq!(labels(&drawn(&thirds, whole(7), whole(1))), vec![0, 1, 3, 4, 6, 7]);
    let all = Ticks { skip: 1, ..fives() };
    assert_eq!(drawn(&all, whole(20), whole(1)), vec![]);
}

#[test]
fn a_bound_on_the_steps_ends_the_series_early() {
    let ticks = Ticks { steps: Some(12), ..fives() };
    assert_eq!(ticks.last_ordinal(whole(20), whole(1)), Some(3));
    assert_eq!(labels(&drawn(&ticks, whole(20), whole(1))), vec![0, 5, 10, 15]);
    let late = Ticks { steps: Some(40), ..fives() };
    assert_eq!(labels(&drawn(&late, whole(20), whole(1))), vec![0, 5, 10, 15, 20]);
    let before_first = Ticks { first: 10, steps: Some(4), ..fives() };
    assert_eq!(labels(&drawn(&before_first, whole(20), whole(1))), vec![10]);
    // With a bound the series ends even where the angles never reach the sweep.
    assert_eq!(ticks.last_ordinal(whole(20), whole(0)), Some(3));
}

#[test]
fn unlabelled_series_draw_lines_only() {
    let ticks = Ticks { label: false, ..fives() };
    let ops = drawn(&ticks, whole(10), whole(1));
    assert_eq!(labels(&ops), Vec::<u32>::new());
    assert_eq!(ops.iter().filter(|op| matches!(op, DrawOp::Stroke(_))).count(), 3);
}

#[test]
fn a_series_that_cannot_be_stepped_through_draws_nothing() {
    let stuck = Ticks { every: 0, ..fives() };
    assert_eq!(stuck.last_ordinal(whole(20), whole(1)), None);
    assert_eq!(drawn(&stuck, whole(20), whole(1)), vec![]);
    // Standing still is fine where the first tick is the last.
    assert_eq!(stuck.last_ordinal(whole(0), whole(1)), Some(0));
    assert_eq!(labels(&drawn(&stuck, whole(0), whole(1))), vec![0]);

    let ticks = fives();
    assert_eq!(ticks.last_ordinal(whole(20), whole(0)), None);
    assert_eq!(ticks.last_ordinal(whole(20), Angle { num: 1, den: 0 }), None);
    let far = Ticks { first: 4_294_967_290, every: 10, ..fives() };
    assert_eq!(far.last_ordinal(whole(4_294_967_291), whole(1)), None);
    assert_eq!(far.last_ordinal(whole(4_294_967_290), whole(1)), Some(0));
}

#[test]
fn several_series_are_drawn_one_after_the_other() {
    let coarse = fives();
    let fine = Ticks { every: 1, length: 50, label: false, color: BLACK, ..fives() };
    let both = vec![fine, coarse];
    let mut frame = Frame::new(Size { width: 500_000, height: 500_000 });
    both.draw(&mut frame, &light_default(), whole(10), whole(1));
    let mut expected = drawn(&fine, whole(10), whole(1));
    expected.extend(drawn(&coarse, whole(10), whole(1)));
    assert_eq!(recorded(&frame), expected);

    let none: Vec<Ticks> = Vec::new();
    let mut frame = Frame::new(Size { width: 500_000, height: 500_000 });
    none.draw(&mut frame, &light_default(), whole(10), whole(1));
    assert_eq!(frame.len(), 0);
}

#[test]
fn a_gauge_takes_a_list_of_series_for_its_ticks() {
    let quarters = Ticks { every: 15, ..fives() };
    let minutes = Ticks { every: 1, length: 50, label: false, ..fives() };
    let gauge: Gauge<Vec<Ticks>, Needles, Pins> = Gauge::new(
        0,
        60_000,
        1_000_000,
        750_000,
        Closing::Circle,
        Box::new(vec![minutes, quarters]),
        Style::Default,
    );
    let mut gauge = gauge;
    gauge.draw(&Theme::Light, Size { width: 400_000, height: 400_000 });
    let ticks = gauge.layer(Layer::Ticks);
    assert_eq!(labels(ticks), vec![0, 15, 30, 45, 60]);
    assert_eq!(ticks.iter().filter(|op| matches!(op, DrawOp::Stroke(_))).count(), 61 + 5);
    assert_eq!(ticks[2], DrawOp::Rotate(whole(750_000)));
}
