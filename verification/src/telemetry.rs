//! The telemetry read-out: the positions of every rigid body, once per
//! frame, for an outside sink to report. Reading never mutates the world:
//! the report is computed from a shared borrow.

use vstd::prelude::*;

use crate::world::Body;
use crate::world::BodyKind;
use crate::world::Vec2;
use crate::world::World;

verus! {

/// The positions of the rigid bodies of the store, in spawn order; bare
/// static colliders carry no rigid body and are left out.
pub open spec fn rigid_body_positions(bodies: Seq<Body>) -> Seq<Vec2>
    decreases bodies.len(),
{
    if bodies.len() == 0 {
        Seq::empty()
    } else {
        let rest = rigid_body_positions(bodies.drop_last());
        match bodies.last().kind {
            BodyKind::Dynamic => rest.push(bodies.last().position),
            BodyKind::Static => rest,
        }
    }
}

/// Reads the position of every rigid body, in spawn order. The world is
/// only borrowed: telemetry mutates neither positions nor velocities.
pub fn ball_altitudes(w: &World) -> (out: Vec<Vec2>)
    ensures
        out@ == rigid_body_positions(w.bodies@),
{
    let mut out: Vec<Vec2> = Vec::new();
    let n = w.bodies.len();
    let mut i: usize = 0;
    while i < n
        invariant
            i <= n,
            n == w.bodies@.len(),
            out@ == rigid_body_positions(w.bodies@.take(i as int)),
        decreases n - i,
    {
        let b = w.bodies[i];
        match b.kind {
            BodyKind::Dynamic => out.push(b.position),
            BodyKind::Static => {},
        }
        proof {
            assert(w.bodies@.take(i + 1).drop_last() =~= w.bodies@.take(i as int));
            assert(w.bodies@.take(i + 1).last() == w.bodies@[i as int]);
        }
        i += 1;
    }
    proof {
        assert(w.bodies@.take(n as int) =~= w.bodies@);
    }
    out
}

/// The character for one decimal digit.
pub open spec fn decimal_digit(d: int) -> char
    recommends
        0 <= d < 10,
{
    if d == 0 {
        '0'
    } else if d == 1 {
        '1'
    } else if d == 2 {
        '2'
    } else if d == 3 {
        '3'
    } else if d == 4 {
        '4'
    } else if d == 5 {
        '5'
    } else if d == 6 {
        '6'
    } else if d == 7 {
        '7'
    } else if d == 8 {
        '8'
    } else {
        '9'
    }
}

/// The decimal digits of a natural number, most significant first, with no
/// leading zero except for zero itself.
pub open spec fn decimal_nat(n: nat) -> Seq<char>
    decreases n,
{
    if n < 10 {
        seq![decimal_digit(n as int)]
    } else {
        decimal_nat(n / 10) + seq![decimal_digit((n % 10) as int)]
    }
}

/// The decimal rendering of an integer: a minus sign before the digits of
/// the magnitude when negative.
pub open spec fn decimal_int(n: int) -> Seq<char> {
    if n < 0 {
        seq!['-'] + decimal_nat((-n) as nat)
    } else {
        decimal_nat(n as nat)
    }
}

/// One decimal digit as text.
fn digit_str(d: u64) -> (s: &'static str)
    requires
        d < 10,
    ensures
        s@ == seq![decimal_digit(d as int)],
{
    proof {
        reveal_strlit("0");
        reveal_strlit("1");
        reveal_strlit("2");
        reveal_strlit("3");
        reveal_strlit("4");
        reveal_strlit("5");
        reveal_strlit("6");
        reveal_strlit("7");
        reveal_strlit("8");
        reveal_strlit("9");
    }
    if d == 0 {
        "0"
    } else if d == 1 {
        "1"
    } else if d == 2 {
        "2"
    } else if d == 3 {
        "3"
    } else if d == 4 {
        "4"
    } else if d == 5 {
        "5"
    } else if d == 6 {
        "6"
    } else if d == 7 {
        "7"
    } else if d == 8 {
        "8"
    } else {
        "9"
    }
}

/// Renders a natural number in decimal.
fn decimal_u64(n: u64) -> (s: String)
    ensures
        s@ == decimal_nat(n as nat),
    decreases n,
{
    if n < 10 {
        String::from_str(digit_str(n))
    } else {
        let mut s = decimal_u64(n / 10);
        s.append(digit_str(n % 10));
        s
    }
}

/// Renders a signed number in decimal.
pub fn decimal_i64(n: i64) -> (s: String)
    ensures
        s@ == decimal_int(n as int),
{
    if n >= 0 {
        decimal_u64(n as u64)
    } else {
        let magnitude: u64 = ((-(n + 1)) as u64) + 1;
        let mut s = String::from_str("-");
        proof {
            reveal_strlit("-");
        }
        let digits = decimal_u64(magnitude);
        s.append(digits.as_str());
        s
    }
}

/// The reported line for one rigid body's position.
pub open spec fn telemetry_line_spec(p: Vec2) -> Seq<char> {
    "Ball altitude: x:"@ + decimal_int(p.x as int) + ", y:"@ + decimal_int(p.y as int)
}

/// Renders the report line for one position.
pub fn telemetry_line(p: &Vec2) -> (line: String)
    ensures
        line@ == telemetry_line_spec(*p),
{
    let mut line = String::from_str("Ball altitude: x:");
    let x_digits = decimal_i64(p.x);
    line.append(x_digits.as_str());
    line.append(", y:");
    let y_digits = decimal_i64(p.y);
    line.append(y_digits.as_str());
    line
}

/// Builds the full per-frame report: one line per rigid body, in spawn
/// order, each giving that body's position. The world is only read.
pub fn telemetry_report(w: &World) -> (lines: Vec<String>)
    ensures
        lines@.len() == rigid_body_positions(w.bodies@).len(),
        forall|i: int|
            0 <= i < lines@.len() ==> (#[trigger] lines@[i])@ == telemetry_line_spec(
                rigid_body_positions(w.bodies@)[i],
            ),
{
    let positions = ball_altitudes(w);
    let mut lines: Vec<String> = Vec::new();
    let n = positions.len();
    let mut i: usize = 0;
    while i < n
        invariant
            i <= n,
            n == positions@.len(),
            positions@ == rigid_body_positions(w.bodies@),
            lines@.len() == i,
            forall|j: int|
                0 <= j < i ==> (#[trigger] lines@[j])@ == telemetry_line_spec(positions@[j]),
        decreases n - i,
    {
        lines.push(telemetry_line(&positions[i]));
        i += 1;
    }
    lines
}

} // verus!
