use iced_gauges::angle::Angle;
use iced_gauges::canvas::{
    Builder, Cache, Color, DrawOp, Elliptical, Frame, LineCap, Path, PathStep, Point, Size,
    Stroke, Text,
};

const RED: Color = Color { r: 200, g: 0, b: 0, a: 255 };

fn steps(path: &Path) -> Vec<PathStep> {
    (0..path.len()).map(|i| path.step(i)).collect()
}

fn recorded(frame: &Frame) -> Vec<DrawOp> {
    (0..frame.len()).map(|i| frame.op(i)).collect()
}

#[test]
fn colors() {
    assert_eq!(Color::from_rgb8(1, 2, 3), Color { r: 1, g: 2, b: 3, a: 255 });
    assert_eq!(Color::black(), Color { r: 0, g: 0, b: 0, a: 255 });
    assert_eq!(Color::white(), Color { r: 255, g: 255, b: 255, a: 255 });
}

#[test]
fn points() {
    assert_eq!(Point::new(3, -4), Point::Cartesian { x: 3, y: -4 });
    assert_eq!(Point::origin(), Point::Cartesian { x: 0, y: 0 });
}

#[test]
fn a_builder_keeps_the_steps_in_order() {
    let arc = Elliptical {
        center: Point::origin(),
        radius: 5,
        rotation: Angle { num: 1, den: 2 },
        start_angle: Angle { num: 0, den: 1 },
        end_angle: Angle { num: 3, den: 4 },
    };
    let mut builder = Builder::new();
    builder.move_to(Point::new(1, 2));
    builder.line_to(Point::new(3, 4));
    builder.ellipse(arc);
    builder.circle(Point::new(5, 6), 7);
    builder.close();
    assert_eq!(
        steps(&builder.build()),
        vec![
            PathStep::MoveTo(Point::new(1, 2)),
            PathStep::LineTo(Point::new(3, 4)),
            PathStep::Ellipse(arc),
            PathStep::Circle { center: Point::new(5, 6), radius: 7 },
            PathStep::Close,
        ]
    );
    assert_eq!(Builder::new().build().len(), 0);
}

#[test]
fn line_and_circle_paths() {
    assert_eq!(
        steps(&Path::line(Point::new(1, 2), Point::new(3, 4))),
        vec![PathStep::MoveTo(Point::new(1, 2)), PathStep::LineTo(Point::new(3, 4))]
    );
    assert_eq!(
        steps(&Path::circle(Point::new(1, 2), 9)),
        vec![PathStep::Circle { center: Point::new(1, 2), radius: 9 }]
    );
}

#[test]
fn a_frame_records_what_is_drawn_in_order() {
    let size = Size { width: 301, height: 200 };
    let mut frame = Frame::new(size);
    assert_eq!(frame.len(), 0);
    assert_eq!(frame.size(), size);
    assert_eq!(frame.width(), 301);
    assert_eq!(frame.height(), 200);
    assert_eq!(frame.center(), Point::new(150, 100));

    let line = Path::line(Point::new(1, 2), Point::new(3, 4));
    let stroke = Stroke { width: 2, color: RED, line_cap: LineCap::Round };
    let text = Text { content: 25, color: RED };
    frame.save();
    frame.translate(Point::new(5, 6));
    frame.rotate(Angle { num: 1, den: 3 });
    frame.fill(&line, RED);
    frame.stroke(&line, stroke);
    frame.fill_text(text);
    frame.restore();
    let expected = vec![
        DrawOp::Save,
        DrawOp::Translate(Point::new(5, 6)),
        DrawOp::Rotate(Angle { num: 1, den: 3 }),
        DrawOp::Outline(PathStep::MoveTo(Point::new(1, 2))),
        DrawOp::Outline(PathStep::LineTo(Point::new(3, 4))),
        DrawOp::Fill(RED),
        DrawOp::Outline(PathStep::MoveTo(Point::new(1, 2))),
        DrawOp::Outline(PathStep::LineTo(Point::new(3, 4))),
        DrawOp::Stroke(stroke),
        DrawOp::FillText(text),
        DrawOp::Restore,
    ];
    assert_eq!(recorded(&frame), expected);
    assert_eq!(frame.size(), size);
    assert_eq!(frame.into_ops(), expected);
}

#[test]
fn filling_an_empty_path_records_the_paint_alone() {
    let mut frame = Frame::new(Size { width: 1, height: 1 });
    frame.fill(&Builder::new().build(), RED);
    assert_eq!(recorded(&frame), vec![DrawOp::Fill(RED)]);
}

#[test]
fn a_cache_keeps_a_drawing_for_one_size() {
    let size = Size { width: 10, height: 20 };
    let other = Size { width: 20, height: 10 };
    let mut cache = Cache::new();
    assert!(!cache.is_fresh(size));
    assert!(cache.drawing().is_empty());

    let mut frame = Frame::new(size);
    frame.save();
    frame.restore();
    cache.store(frame);
    assert!(cache.is_fresh(size));
    assert!(!cache.is_fresh(other));
    assert_eq!(cache.drawing(), &vec![DrawOp::Save, DrawOp::Restore]);

    let mut frame = Frame::new(other);
    frame.save();
    cache.store(frame);
    assert!(cache.is_fresh(other));
    assert!(!cache.is_fresh(size));
    assert_eq!(cache.drawing(), &vec![DrawOp::Save]);

    cache.clear();
    assert!(!cache.is_fresh(other));
    assert!(cache.drawing().is_empty());
}

#[test]
fn angles_step_and_compare_exactly() {
    let step = Angle { num: 300_000_000, den: 100_000 };
    assert_eq!(Angle::micro_turns(-250_000), Angle { num: -250_000, den: 1 });
    assert_eq!(step.times(25), Angle { num: 7_500_000_000, den: 100_000 });
    assert_eq!(step.times(0), Angle { num: 0, den: 100_000 });
    assert_eq!(
        Angle { num: -4_611_686_018_427_387_904, den: 1 }.times(u32::MAX).num,
        -4_611_686_018_427_387_904i128 * 4_294_967_295
    );
    let sweep = Angle { num: 300_000, den: 1 };
    assert!(!step.reaches(99, sweep));
    assert!(step.reaches(100, sweep));
    assert!(step.reaches(101, sweep));
    // A third of a unit per step against a sweep of one unit.
    let third = Angle { num: 1, den: 3 };
    assert!(!third.reaches(2, Angle { num: 1, den: 1 }));
    assert!(third.reaches(3, Angle { num: 1, den: 1 }));
    assert!(Angle { num: 5, den: 7 }.is_narrow());
    assert!(!Angle { num: 5, den: 0 }.is_narrow());
    assert!(!Angle { num: 5, den: 4_294_967_296 }.is_narrow());
    assert!(Angle { num: 4_611_686_018_427_387_904, den: 4_294_967_295 }.is_narrow());
    assert!(!Angle { num: 4_611_686_018_427_387_905, den: 1 }.is_narrow());
    assert!(!Angle { num: -4_611_686_018_427_387_905, den: 1 }.is_narrow());
}
