use iced_gauges::canvas::{Color, DrawOp, Frame, LineCap, PathStep, Point, Size, Stroke};
use iced_gauges::pin::{Pin, Pins};
use iced_gauges::style::{light_default, Appearance};
use iced_gauges::util::frame::radius;

const GREY: Color = Color { r: 128, g: 128, b: 128, a: 255 };
const RED: Color = Color { r: 200, g: 0, b: 0, a: 255 };

fn look() -> Appearance {
    Appearance {
        pin_diameter_ratio: 1_000,
        pin_border_width_ratio: 100,
        pin_color: GREY,
        pin_border_color: RED,
        ..light_default()
    }
}

fn frame() -> Frame {
    Frame::new(Size { width: 500_000, height: 300_000 })
}

fn disc() -> DrawOp {
    // A frame radius of 150_000 and a ratio of one: a quarter of the radius.
    DrawOp::Outline(PathStep::Circle {
        center: Point::Cartesian { x: 250_000, y: 150_000 },
        radius: 37_500,
    })
}

fn ring() -> DrawOp {
    DrawOp::Stroke(Stroke { width: 3_750, color: RED, line_cap: LineCap::Round })
}

fn drawn(pin: Pins, look: &Appearance) -> Vec<DrawOp> {
    let mut f = frame();
    pin.draw(&mut f, look);
    (0..f.len()).map(|i| f.op(i)).collect()
}

#[test]
fn frame_radius_is_half_the_shorter_side() {
    assert_eq!(radius(&frame()), 150_000);
    assert_eq!(radius(&Frame::new(Size { width: 7, height: 900 })), 3);
    assert_eq!(radius(&Frame::new(Size { width: 0, height: 900 })), 0);
    assert_eq!(radius(&Frame::new(Size { width: u32::MAX, height: u32::MAX })), 2_147_483_647);
}

#[test]
fn pin_path_is_a_circle_about_the_center() {
    let path = Pins::Solid.path(&frame(), &look());
    assert_eq!(path.len(), 1);
    assert_eq!(DrawOp::Outline(path.step(0)), disc());
    let small = Pins::Hollow.path(&frame(), &light_default());
    assert_eq!(
        small.step(0),
        PathStep::Circle { center: Point::Cartesian { x: 250_000, y: 150_000 }, radius: 18_750 }
    );
}

#[test]
fn pin_stroke_takes_width_and_color_from_the_style() {
    assert_eq!(
        Pins::Bordered.stroke(&frame(), &look()),
        Stroke { width: 3_750, color: RED, line_cap: LineCap::Round }
    );
    assert_eq!(
        Pins::Bordered.stroke(&frame(), &light_default()),
        Stroke { width: 0, color: Color { r: 0, g: 0, b: 0, a: 255 }, line_cap: LineCap::Round }
    );
}

#[test]
fn solid_pin_is_filled_only() {
    assert_eq!(drawn(Pins::Solid, &look()), vec![disc(), DrawOp::Fill(GREY)]);
}

#[test]
fn hollow_pin_is_stroked_only() {
    assert_eq!(drawn(Pins::Hollow, &look()), vec![disc(), ring()]);
}

#[test]
fn bordered_pin_is_filled_then_stroked() {
    assert_eq!(
        drawn(Pins::Bordered, &look()),
        vec![disc(), DrawOp::Fill(GREY), disc(), ring()]
    );
}

#[test]
fn pin_sizes_round_down_and_do_not_overflow() {
    let huge = Appearance {
        pin_diameter_ratio: u32::MAX,
        pin_border_width_ratio: 4_001,
        ..light_default()
    };
    let f = Frame::new(Size { width: u32::MAX, height: u32::MAX });
    let path = Pins::Solid.path(&f, &huge);
    let expected: i128 = 2_147_483_647i128 * 4_294_967_295i128 / 4_000;
    assert_eq!(
        path.step(0),
        PathStep::Circle {
            center: Point::Cartesian { x: 2_147_483_647, y: 2_147_483_647 },
            radius: expected,
        }
    );
    let small = Frame::new(Size { width: 7, height: 7 });
    assert_eq!(Pins::Solid.stroke(&small, &huge).width, 3);
}
