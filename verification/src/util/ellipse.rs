//! Points on an ellipse, in exact arithmetic.
//!
//! An angle enters as its cosine and sine, counted in billionths, and a point
//! comes out as a pair of fractions over one denominator. Nothing is rounded
//! here: what the cosine and sine are worth is the caller's business.

use vstd::prelude::*;

verus! {

/// The number of parts a cosine or sine of one is counted as.
pub const UNIT: i32 = 1_000_000_000;

/// The least sine, in parts of `UNIT`, that a straight ellipse can be
/// evaluated at: a millionth.
pub const LEAST_SINE: i32 = 1_000;

/// The cosine and sine of an angle, in billionths.
#[derive(Clone, Copy, Debug, PartialEq, Eq, Structural)]
pub struct Direction {
    pub cos: i32,
    pub sin: i32,
}

impl Direction {
    /// The direction of the +x axis.
    pub open spec fn spec_zero() -> Direction {
        Direction { cos: UNIT, sin: 0 }
    }

    /// The direction of the +x axis.
    #[verifier::when_used_as_spec(spec_zero)]
    pub fn zero() -> (d: Direction)
        ensures
            d == Direction::spec_zero(),
    {
        Direction { cos: UNIT, sin: 0 }
    }

    /// The square of the length of the direction, in parts of `UNIT`
    /// squared.
    pub open spec fn norm2(self) -> int {
        self.cos * self.cos + self.sin * self.sin
    }

    /// The direction has length one.
    pub open spec fn is_unit(self) -> bool {
        self.norm2() == UNIT * UNIT
    }
}

/// A curvature of `num / den` per thousandth of a pixel: the reciprocal of a
/// radius. A denominator of zero stands for a radius of zero.
#[derive(Clone, Copy, Debug, PartialEq, Eq, Structural)]
pub struct Curvature {
    pub num: i32,
    pub den: u32,
}

/// The point `(x / den, y / den)`, in thousandths of a pixel.
#[derive(Clone, Copy, Debug, PartialEq, Eq, Structural)]
pub struct Place {
    pub x: i128,
    pub y: i128,
    pub den: i128,
}

/// An ellipse, given by the curvature of its major axis and the radius of
/// its minor axis, and turned about its centre.
#[derive(Clone, Copy, Debug, PartialEq, Eq, Structural)]
pub struct Ellipse {
    pub center_x: i32,
    pub center_y: i32,
    pub major_curvature: Curvature,
    pub minor_radius: i32,
    /// The direction the major axis is turned to.
    pub angle: Direction,
}

/// The size of `v`, whatever its sign.
pub open spec fn abs(v: int) -> int {
    if v < 0 {
        -v
    } else {
        v
    }
}

impl Ellipse {
    /// The curvature is a number or stands for a radius of zero.
    pub open spec fn wf(&self) -> bool {
        self.major_curvature.num != 0 || self.major_curvature.den != 0
    }

    /// The major axis is as good as straight: its curvature is less than a
    /// millionth per pixel.
    pub open spec fn spec_is_flat(&self) -> bool {
        abs(self.major_curvature.num as int) * 1_000_000_000 < self.major_curvature.den
    }

    /// The ellipse has a point at `at`: it is not flat, or the sine of the
    /// angle is at least a millionth either way.
    pub open spec fn spec_is_defined_at(&self, at: Direction) -> bool {
        self.spec_is_flat() ==> abs(at.sin as int) >= LEAST_SINE
    }

    /// The point at `at`, relative to the centre.
    ///
    /// With `c`, `s` the cosine and sine of the angle, `C`, `S` those of the
    /// turn, `k` the curvature and `m` the minor radius, the point is
    /// `(c C / k - s S m, c S / k + s C m)`. A flat ellipse gives the point
    /// of the straight line at distance `m` instead:
    /// `(m cos(b), m sin(b)) / |s|`, where `b` is the angle and the turn
    /// together.
    pub open spec fn relative(&self, at: Direction) -> Place {
        let c = at.cos as int;
        let s = at.sin as int;
        let turn_c = self.angle.cos as int;
        let turn_s = self.angle.sin as int;
        let m = self.minor_radius as int;
        let num = self.major_curvature.num as int;
        let den = self.major_curvature.den as int;
        if self.spec_is_flat() {
            Place {
                x: (m * (c * turn_c - s * turn_s)) as i128,
                y: (m * (s * turn_c + c * turn_s)) as i128,
                den: (UNIT * abs(s)) as i128,
            }
        } else {
            Place {
                x: (c * turn_c * den - s * turn_s * (m * num)) as i128,
                y: (c * turn_s * den + s * turn_c * (m * num)) as i128,
                den: (num * (UNIT * UNIT)) as i128,
            }
        }
    }

    /// The point at `at`.
    pub open spec fn point(&self, at: Direction) -> Place {
        let p = self.relative(at);
        Place {
            x: (self.center_x * p.den + p.x) as i128,
            y: (self.center_y * p.den + p.y) as i128,
            den: p.den,
        }
    }

    /// The circle of radius `r` about the origin.
    pub open spec fn spec_round(r: i32) -> Ellipse {
        Ellipse {
            center_x: 0,
            center_y: 0,
            major_curvature: Curvature {
                num: if r < 0 {
                    -1i32
                } else {
                    1i32
                },
                den: abs(r as int) as u32,
            },
            minor_radius: r,
            angle: Direction::spec_zero(),
        }
    }

    /// The circle of radius `r` about the origin.
    #[verifier::when_used_as_spec(spec_round)]
    pub fn round(r: i32) -> (e: Ellipse)
        ensures
            e == Ellipse::spec_round(r),
            e.wf(),
    {
        Ellipse {
            center_x: 0,
            center_y: 0,
            major_curvature: if r < 0 {
                Curvature { num: -1, den: (-(r as i64)) as u32 }
            } else {
                Curvature { num: 1, den: r as u32 }
            },
            minor_radius: r,
            angle: Direction::zero(),
        }
    }

    /// Whether the major axis is as good as straight.
    #[verifier::when_used_as_spec(spec_is_flat)]
    pub fn is_flat(&self) -> (flat: bool)
        ensures
            flat == self.spec_is_flat(),
    {
        let num: i64 = self.major_curvature.num as i64;
        let size: i64 = if num < 0 {
            -num
        } else {
            num
        };
        size * 1_000_000_000 < self.major_curvature.den as i64
    }

    /// Whether the ellipse has a point at `at`.
    #[verifier::when_used_as_spec(spec_is_defined_at)]
    pub fn is_defined_at(&self, at: Direction) -> (defined: bool)
        ensures
            defined == self.spec_is_defined_at(at),
    {
        !self.is_flat() || at.sin >= LEAST_SINE || at.sin <= -LEAST_SINE
    }

    /// The point at `angle`.
    pub fn get_point(&self, angle: Direction) -> (p: Place)
        requires
            self.wf(),
            self.spec_is_defined_at(angle),
        ensures
            p == self.point(angle),
            p.den != 0,
    {
        let pt = self.get_relative_point(angle);
        proof {
            let most = 0x8000_0000 * (UNIT * UNIT);
            lemma_product_bound(self.center_x as int, pt.den as int, 0x8000_0000, most);
            lemma_product_bound(self.center_y as int, pt.den as int, 0x8000_0000, most);
        }
        Place {
            x: (self.center_x as i128) * pt.den + pt.x,
            y: (self.center_y as i128) * pt.den + pt.y,
            den: pt.den,
        }
    }

    /// The point at `angle`, relative to the centre.
    pub fn get_relative_point(&self, angle: Direction) -> (p: Place)
        requires
            self.wf(),
            self.spec_is_defined_at(angle),
        ensures
            p == self.relative(angle),
            p.den != 0,
            -0x8000_0000 * (UNIT * UNIT) <= p.den <= 0x8000_0000 * (UNIT * UNIT),
            -0x2000_0000_0000_0000_0000_0000_0000_0000 <= p.x
                <= 0x2000_0000_0000_0000_0000_0000_0000_0000,
            -0x2000_0000_0000_0000_0000_0000_0000_0000 <= p.y
                <= 0x2000_0000_0000_0000_0000_0000_0000_0000,
    {
        let c: i128 = angle.cos as i128;
        let s: i128 = angle.sin as i128;
        let turn_c: i128 = self.angle.cos as i128;
        let turn_s: i128 = self.angle.sin as i128;
        let m: i128 = self.minor_radius as i128;
        proof {
            lemma_product_bound(c as int, turn_c as int, 0x8000_0000, 0x8000_0000);
            lemma_product_bound(s as int, turn_s as int, 0x8000_0000, 0x8000_0000);
            lemma_product_bound(s as int, turn_c as int, 0x8000_0000, 0x8000_0000);
            lemma_product_bound(c as int, turn_s as int, 0x8000_0000, 0x8000_0000);
        }
        let cc: i128 = c * turn_c;
        let ss: i128 = s * turn_s;
        let sc: i128 = s * turn_c;
        let cs: i128 = c * turn_s;
        if self.is_flat() {
            let size: i128 = if s < 0 {
                -s
            } else {
                s
            };
            proof {
                lemma_product_bound(m as int, cc - ss, 0x8000_0000, 0x8000_0000_0000_0000);
                lemma_product_bound(m as int, sc + cs, 0x8000_0000, 0x8000_0000_0000_0000);
                lemma_product_bound(UNIT as int, size as int, 0x8000_0000, 0x8000_0000);
                assert(UNIT * size >= LEAST_SINE) by (nonlinear_arith)
                    requires
                        size >= LEAST_SINE,
                ;
                assert(UNIT * UNIT == 1_000_000_000_000_000_000) by (nonlinear_arith)
                    requires
                        UNIT == 1_000_000_000,
                ;
            }
            Place { x: m * (cc - ss), y: m * (sc + cs), den: (UNIT as i128) * size }
        } else {
            let num: i128 = self.major_curvature.num as i128;
            let den: i128 = self.major_curvature.den as i128;
            proof {
                lemma_product_bound(m as int, num as int, 0x8000_0000, 0x8000_0000);
                lemma_product_bound(cc as int, den as int, 0x4000_0000_0000_0000, 0x1_0000_0000);
                lemma_product_bound(cs as int, den as int, 0x4000_0000_0000_0000, 0x1_0000_0000);
                lemma_product_bound(
                    ss as int,
                    m * num,
                    0x4000_0000_0000_0000,
                    0x4000_0000_0000_0000,
                );
                lemma_product_bound(
                    sc as int,
                    m * num,
                    0x4000_0000_0000_0000,
                    0x4000_0000_0000_0000,
                );
                lemma_product_bound(num as int, UNIT * UNIT, 0x8000_0000, UNIT * UNIT);
                assert(num != 0);
                assert(num * (UNIT * UNIT) != 0) by (nonlinear_arith)
                    requires
                        num != 0,
                ;
            }
            let radius: i128 = m * num;
            let scale: i128 = (UNIT as i128) * (UNIT as i128);
            Place { x: cc * den - ss * radius, y: cs * den + sc * radius, den: num * scale }
        }
    }
}

/// A product is no greater in size than the product of bounds on its
/// factors.
pub proof fn lemma_product_bound(a: int, b: int, bound_a: int, bound_b: int)
    requires
        -bound_a <= a <= bound_a,
        -bound_b <= b <= bound_b,
    ensures
        -(bound_a * bound_b) <= a * b <= bound_a * bound_b,
{
    assert(-(bound_a * bound_b) <= a * b <= bound_a * bound_b) by (nonlinear_arith)
        requires
            -bound_a <= a <= bound_a,
            -bound_b <= b <= bound_b,
    ;
}

/// The square of a product is the product of the squares.
pub proof fn lemma_square_of_product(a: int, b: int)
    ensures
        (a * b) * (a * b) == (a * a) * (b * b),
{
    assert((a * b) * (a * b) == (a * a) * (b * b)) by (nonlinear_arith);
}

/// Every point of a circle that is not flat lies as far from the centre as
/// the direction it is asked at is long, times the radius: at a direction of
/// length one, at the distance of the radius.
pub proof fn lemma_round_keeps_distance(r: i32, at: Direction)
    requires
        0 < r <= 1_000_000_000,
    ensures
        !Ellipse::spec_round(r).spec_is_flat(),
        Ellipse::spec_round(r).point(at).den == UNIT * UNIT,
        Ellipse::spec_round(r).point(at).x * Ellipse::spec_round(r).point(at).x
            + Ellipse::spec_round(r).point(at).y * Ellipse::spec_round(r).point(at).y == (r * r)
            * at.norm2() * (UNIT * UNIT),
        at.is_unit() ==> Ellipse::spec_round(r).point(at).x * Ellipse::spec_round(r).point(at).x
            + Ellipse::spec_round(r).point(at).y * Ellipse::spec_round(r).point(at).y == (r
            * Ellipse::spec_round(r).point(at).den) * (r * Ellipse::spec_round(r).point(at).den),
{
    let e = Ellipse::spec_round(r);
    let c = at.cos as int;
    let s = at.sin as int;
    let u = UNIT as int;
    let rr = r as int;
    assert(e.major_curvature.num == 1 && e.major_curvature.den == r);
    lemma_product_bound(c, u, 0x8000_0000, 0x8000_0000);
    lemma_product_bound(s, u, 0x8000_0000, 0x8000_0000);
    lemma_product_bound(c * u, rr, 0x4000_0000_0000_0000, 0x8000_0000);
    lemma_product_bound(s * u, rr, 0x4000_0000_0000_0000, 0x8000_0000);
    assert(s * 0 * (rr * 1) == 0 && c * 0 * rr == 0) by (nonlinear_arith);
    assert(s * u * (rr * 1) == s * u * rr) by (nonlinear_arith);
    let p = e.relative(at);
    assert(p.x == c * u * rr);
    assert(p.y == s * u * rr);
    assert(p.den == u * u);
    assert(0 * (u * u) == 0);
    let q = e.point(at);
    assert(q.x == p.x && q.y == p.y && q.den == p.den);
    lemma_square_of_product(c, u * rr);
    lemma_square_of_product(s, u * rr);
    lemma_square_of_product(u, rr);
    assert(c * u * rr == c * (u * rr) && s * u * rr == s * (u * rr)) by (nonlinear_arith);
    let k = (u * u) * (rr * rr);
    assert((c * c) * k + (s * s) * k == (rr * rr) * (c * c + s * s) * (u * u))
        by (nonlinear_arith)
        requires
            k == (u * u) * (rr * rr),
    ;
    if at.is_unit() {
        assert((rr * rr) * (u * u) * (u * u) == (rr * (u * u)) * (rr * (u * u)))
            by (nonlinear_arith);
    }
}

/// At the angle zero, an ellipse that is not flat and not turned has its
/// point on the x axis through its centre, at the distance of its major
/// radius, the reciprocal of its curvature, and on the positive side if the
/// curvature is positive. Where the major radius is the minor radius, as it
/// is for a circle, the point lies at the distance of the minor radius.
pub proof fn lemma_point_at_zero(e: Ellipse)
    requires
        e.wf(),
        !e.spec_is_flat(),
        e.angle == Direction::spec_zero(),
    ensures
        e.relative(Direction::spec_zero()).y == 0,
        e.relative(Direction::spec_zero()).x * e.major_curvature.num == e.major_curvature.den
            * e.relative(Direction::spec_zero()).den,
        e.major_curvature.num > 0 ==> e.relative(Direction::spec_zero()).den > 0 && e.relative(
            Direction::spec_zero(),
        ).x >= 0,
        e.major_curvature.den == e.minor_radius * e.major_curvature.num ==> e.relative(
            Direction::spec_zero(),
        ).x == e.minor_radius * e.relative(Direction::spec_zero()).den,
{
    let u = UNIT as int;
    let m = e.minor_radius as int;
    let num = e.major_curvature.num as int;
    let den = e.major_curvature.den as int;
    lemma_product_bound(m, num, 0x8000_0000, 0x8000_0000);
    lemma_product_bound(u * u, den, u * u, 0x1_0000_0000);
    lemma_product_bound(num, u * u, 0x8000_0000, u * u);
    assert(0 * 0 * (m * num) == 0 && u * 0 * den == 0 && 0 * u * (m * num) == 0)
        by (nonlinear_arith);
    let p = e.relative(Direction::spec_zero());
    assert(p.x == u * u * den);
    assert(p.y == 0);
    assert(p.den == num * (u * u));
    assert((u * u * den) * num == den * (num * (u * u))) by (nonlinear_arith);
    if num > 0 {
        assert(num * (u * u) > 0 && u * u * den >= 0) by (nonlinear_arith)
            requires
                num > 0,
                u > 0,
                den >= 0,
        ;
    }
    if den == m * num {
        assert(u * u * den == m * (num * (u * u))) by (nonlinear_arith)
            requires
                den == m * num,
        ;
    }
}

} // verus!
