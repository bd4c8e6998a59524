//! Distances between combatants.
use vstd::prelude::*;
use crate::event::Location;

verus! {

/// The square of the Euclidean distance between two points, in square engine units.
pub open spec fn sq_dist(a: Location, b: Location) -> int {
    let dx = a.x as int - b.x as int;
    let dy = a.y as int - b.y as int;
    let dz = a.z as int - b.z as int;
    dx * dx + dy * dy + dz * dz
}

/// `r` is the square root of `n`, rounded down.
pub open spec fn is_floor_sqrt(r: int, n: int) -> bool {
    0 <= r && r * r <= n < (r + 1) * (r + 1)
}

/// The square root rounded down is unique.
pub proof fn lemma_floor_sqrt_unique(r1: int, r2: int, n: int)
    requires
        is_floor_sqrt(r1, n),
        is_floor_sqrt(r2, n),
    ensures
        r1 == r2,
{
    if r1 < r2 {
        assert((r1 + 1) * (r1 + 1) <= r2 * r2) by (nonlinear_arith)
            requires
                0 <= r1,
                r1 + 1 <= r2,
        ;
    }
    if r2 < r1 {
        assert((r2 + 1) * (r2 + 1) <= r1 * r1) by (nonlinear_arith)
            requires
                0 <= r2,
                r2 + 1 <= r1,
        ;
    }
}

/// Relies on std's `u128::isqrt`: the square root of the number, rounded down.
#[verifier::external_body]
fn floor_sqrt(n: u128) -> (r: u128)
    ensures
        is_floor_sqrt(r as int, n as int),
{
    n.isqrt()
}

/// The distance between two points in engine units (centimetres), rounded
/// down; a hundredth of it is the distance in metres.
pub fn distance(a: &Location, b: &Location) -> (r: u64)
    ensures
        is_floor_sqrt(r as int, sq_dist(*a, *b)),
        r < 0x4_0000_0000,
{
    let dx: i64 = a.x as i64 - b.x as i64;
    let dy: i64 = a.y as i64 - b.y as i64;
    let dz: i64 = a.z as i64 - b.z as i64;
    let ax: u128 = if dx < 0 { (-dx) as u128 } else { dx as u128 };
    let ay: u128 = if dy < 0 { (-dy) as u128 } else { dy as u128 };
    let az: u128 = if dz < 0 { (-dz) as u128 } else { dz as u128 };
    assert(ax * ax <= 0x1_0000_0000_0000_0000) by (nonlinear_arith)
        requires ax <= 0x1_0000_0000;
    assert(ay * ay <= 0x1_0000_0000_0000_0000) by (nonlinear_arith)
        requires ay <= 0x1_0000_0000;
    assert(az * az <= 0x1_0000_0000_0000_0000) by (nonlinear_arith)
        requires az <= 0x1_0000_0000;
    let n: u128 = ax * ax + ay * ay + az * az;
    assert(n == sq_dist(*a, *b)) by (nonlinear_arith)
        requires
            ax as int == dx || ax as int == -dx,
            ay as int == dy || ay as int == -dy,
            az as int == dz || az as int == -dz,
            dx == a.x as int - b.x as int,
            dy == a.y as int - b.y as int,
            dz == a.z as int - b.z as int,
            n == ax * ax + ay * ay + az * az;
    let r = floor_sqrt(n);
    assert(r < 0x4_0000_0000) by (nonlinear_arith)
        requires
            r * r <= n,
            n <= 0x3_0000_0000_0000_0000;
    r as u64
}

} // verus!
