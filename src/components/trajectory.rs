use vstd::prelude::*;
use crate::components::position::Velocity;
use crate::constants::weapon::{THROW_DIVISOR, THROW_MAX_SPEED};
use vstd::arithmetic::div_mod::{lemma_div_by_multiple, lemma_div_is_ordered, lemma_div_pos_is_pos};

verus! {

/// Largest magnitude of a coordinate that a throw accepts (2^40 units).
pub const COORD_LIMIT: i64 = 1_099_511_627_776;

/// The distance from which a throw reaches its top speed.
pub const FULL_POWER_DISTANCE: i64 = THROW_DIVISOR * THROW_MAX_SPEED;

/// Whether a coordinate is small enough for a throw to work with.
pub open spec fn within_limit(v: int) -> bool {
    -COORD_LIMIT <= v <= COORD_LIMIT
}

/// `a / b` rounded toward zero, as integer division does on machine integers.
pub open spec fn quot(a: int, b: int) -> int {
    if a >= 0 {
        a / b
    } else {
        -((-a) / b)
    }
}

/// Whether `r` is the least natural number whose square is at least `n`.
pub open spec fn is_ceil_sqrt(r: int, n: int) -> bool {
    &&& 0 <= r
    &&& n <= r * r
    &&& (r == 0 || (r - 1) * (r - 1) < n)
}

/// The square root of `n`, rounded up.
pub open spec fn ceil_sqrt(n: int) -> int {
    choose|r: int| is_ceil_sqrt(r, n)
}

/// The velocity of a throw toward a target `(dx, dy)` away: pointed at the
/// target, with a speed of a tenth of the distance, capped at
/// [`THROW_MAX_SPEED`].
pub open spec fn throw_velocity(dx: int, dy: int) -> (int, int) {
    let n = dx * dx + dy * dy;
    if n < FULL_POWER_DISTANCE * FULL_POWER_DISTANCE {
        (quot(dx, THROW_DIVISOR as int), quot(dy, THROW_DIVISOR as int))
    } else {
        let d = ceil_sqrt(n);
        (quot(THROW_MAX_SPEED * dx, d), quot(THROW_MAX_SPEED * dy, d))
    }
}

proof fn lemma_square_monotonic(a: int, b: int)
    requires
        0 <= a <= b,
    ensures
        a * a <= b * b,
{
    assert(a * a <= b * b) by (nonlinear_arith)
        requires
            0 <= a <= b,
    ;
}

proof fn lemma_square_bound(a: int, m: int)
    requires
        -m <= a <= m,
    ensures
        0 <= a * a <= m * m,
{
    assert(0 <= a * a <= m * m) by (nonlinear_arith)
        requires
            -m <= a <= m,
    ;
}

/// A value at most `k` times `b` away from zero stays at most `k` away from
/// zero once divided by `b`.
proof fn lemma_quot_bound(a: int, b: int, k: int)
    requires
        b > 0,
        k >= 0,
        -(k * b) <= a <= k * b,
    ensures
        -k <= quot(a, b) <= k,
{
    assert(k * b >= 0) by (nonlinear_arith)
        requires
            b > 0,
            k >= 0,
    ;
    lemma_div_by_multiple(k, b);
    if a >= 0 {
        lemma_div_is_ordered(a, k * b, b);
        lemma_div_pos_is_pos(a, b);
    } else {
        lemma_div_is_ordered(-a, k * b, b);
        lemma_div_pos_is_pos(-a, b);
    }
}

/// A number has one rounded-up square root.
pub proof fn lemma_ceil_sqrt_unique(r: int, s: int, n: int)
    requires
        is_ceil_sqrt(r, n),
        is_ceil_sqrt(s, n),
    ensures
        r == s,
{
    if r < s {
        lemma_square_monotonic(r, s - 1);
    } else if s < r {
        lemma_square_monotonic(s, r - 1);
    }
}

/// The square root of `n`, rounded up.
pub fn ceil_sqrt_of(n: u128) -> (r: u64)
    requires
        n <= 19342813113834066795298816,
    ensures
        r == ceil_sqrt(n as int),
        is_ceil_sqrt(r as int, n as int),
        r <= 0x400_0000_0000,
{
    if n == 0 {
        proof {
            assert(is_ceil_sqrt(0, 0));
            lemma_ceil_sqrt_unique(0, ceil_sqrt(0), 0);
        }
        return 0;
    }
    let mut lo: u128 = 0;
    let mut hi: u128 = 0x400_0000_0000;
    assert(0x400_0000_0000u128 * 0x400_0000_0000u128 == 19342813113834066795298816u128) by (nonlinear_arith);
    while lo + 1 < hi
        invariant
            lo < hi <= 0x400_0000_0000,
            lo * lo < n,
            n <= hi * hi,
        decreases hi - lo,
    {
        let mid = lo + (hi - lo) / 2;
        proof {
            lemma_square_monotonic(mid as int, 0x400_0000_0000);
        }
        if mid * mid < n {
            lo = mid;
        } else {
            hi = mid;
        }
    }
    proof {
        assert(is_ceil_sqrt(hi as int, n as int));
        lemma_ceil_sqrt_unique(hi as int, ceil_sqrt(n as int), n as int);
    }
    hi as u64
}

/// `a / b` rounded toward zero.
fn quot_of(a: i128, b: i128) -> (r: i128)
    requires
        b > 0,
        a > i128::MIN,
    ensures
        r == quot(a as int, b as int),
{
    if a >= 0 {
        a / b
    } else {
        -((-a) / b)
    }
}

/// The velocity of a throw toward a target `(dx, dy)` away.
pub fn throw_velocity_of(dx: i64, dy: i64) -> (r: Velocity)
    requires
        -2 * COORD_LIMIT <= dx <= 2 * COORD_LIMIT,
        -2 * COORD_LIMIT <= dy <= 2 * COORD_LIMIT,
    ensures
        (r.x as int, r.y as int) == throw_velocity(dx as int, dy as int),
{
    let ghost m: int = 2199023255552;
    proof {
        assert(m == 2 * COORD_LIMIT);
        assert(2199023255552int * 2199023255552int == 4835703278458516698824704int) by (nonlinear_arith);
    }
    let x = dx as i128;
    let y = dy as i128;
    proof {
        lemma_square_bound(x as int, 2199023255552);
        lemma_square_bound(y as int, 2199023255552);
        assert(x * x <= 4835703278458516698824704int);
        assert(y * y <= 4835703278458516698824704int);
    }
    let n = x * x + y * y;
    let reach = FULL_POWER_DISTANCE as i128;
    if n < reach * reach {
        proof {
            lemma_quot_bound(x as int, THROW_DIVISOR as int, m);
            lemma_quot_bound(y as int, THROW_DIVISOR as int, m);
        }
        Velocity::new(quot_of(x, THROW_DIVISOR as i128) as i64, quot_of(y, THROW_DIVISOR as i128) as i64)
    } else {
        let d = ceil_sqrt_of(n as u128) as i128;
        proof {
            let di = d as int;
            assert(x * x <= di * di && y * y <= di * di);
            if x > di || x < -di {
                assert(x * x > di * di) by (nonlinear_arith)
                    requires
                        x > di || x < -di,
                        di >= 0,
                ;
            }
            if y > di || y < -di {
                assert(y * y > di * di) by (nonlinear_arith)
                    requires
                        y > di || y < -di,
                        di >= 0,
                ;
            }
            let c = THROW_MAX_SPEED as int;
            assert(-(c * di) <= c * x <= c * di) by (nonlinear_arith)
                requires
                    -di <= x <= di,
                    c > 0,
            ;
            assert(-(c * di) <= c * y <= c * di) by (nonlinear_arith)
                requires
                    -di <= y <= di,
                    c > 0,
            ;
            lemma_quot_bound(c * x, di, c);
            lemma_quot_bound(c * y, di, c);
        }
        Velocity::new(
            quot_of(THROW_MAX_SPEED as i128 * x, d) as i64,
            quot_of(THROW_MAX_SPEED as i128 * y, d) as i64,
        )
    }
}


/// Every natural number has a rounded-up square root.
pub proof fn lemma_ceil_sqrt_exists(n: int)
    requires
        n >= 0,
    ensures
        is_ceil_sqrt(ceil_sqrt(n), n),
    decreases n,
{
    if n == 0 {
        assert(is_ceil_sqrt(0, 0));
    } else {
        lemma_ceil_sqrt_exists(n - 1);
        let r = ceil_sqrt(n - 1);
        if n <= r * r {
            assert(is_ceil_sqrt(r, n));
        } else {
            assert(n <= (r + 1) * (r + 1)) by (nonlinear_arith)
                requires
                    n - 1 <= r * r,
                    r >= 0,
            ;
            assert(is_ceil_sqrt(r + 1, n));
        }
    }
}

pub open spec fn abs(a: int) -> int {
    if a >= 0 {
        a
    } else {
        -a
    }
}

/// Rounding toward zero loses less than one step of `b`.
proof fn lemma_quot_remainder(a: int, b: int)
    requires
        b > 0,
    ensures
        abs(quot(a, b)) == abs(a) / b,
        abs(quot(a, b)) * b <= abs(a) < (abs(quot(a, b)) + 1) * b,
{
    vstd::arithmetic::div_mod::lemma_fundamental_div_mod(abs(a), b);
    vstd::arithmetic::div_mod::lemma_mod_bound(abs(a), b);
    lemma_div_pos_is_pos(abs(a), b);
    assert(abs(quot(a, b)) * b <= abs(a) < (abs(quot(a, b)) + 1) * b) by (nonlinear_arith)
        requires
            abs(a) == b * (abs(a) / b) + abs(a) % b,
            0 <= abs(a) % b < b,
            abs(quot(a, b)) == abs(a) / b,
    ;
}

/// A throw from closer than the full-power distance moves a tenth of the
/// way to the target each frame, each component rounded toward zero.
pub proof fn lemma_throw_speed_scaled(dx: int, dy: int)
    requires
        dx * dx + dy * dy < FULL_POWER_DISTANCE * FULL_POWER_DISTANCE,
    ensures
        throw_velocity(dx, dy) == (quot(dx, 10), quot(dy, 10)),
{
}

/// A throw from the full-power distance or farther never exceeds the top
/// speed, and falls short of it by less than three units (rounding).
pub proof fn lemma_throw_speed_capped(dx: int, dy: int)
    requires
        dx * dx + dy * dy >= FULL_POWER_DISTANCE * FULL_POWER_DISTANCE,
    ensures
        ({
            let (vx, vy) = throw_velocity(dx, dy);
            &&& vx * vx + vy * vy <= THROW_MAX_SPEED * THROW_MAX_SPEED
            &&& vx * vx + vy * vy > (THROW_MAX_SPEED - 3) * (THROW_MAX_SPEED - 3)
        }),
{
    let n = dx * dx + dy * dy;
    assert(dx * dx >= 0 && dy * dy >= 0) by (nonlinear_arith);
    lemma_ceil_sqrt_exists(n);
    let d = ceil_sqrt(n);
    let c = THROW_MAX_SPEED as int;
    let r = FULL_POWER_DISTANCE as int;
    assert(r == 200000 && c == 20000);
    assert(r * r == 40000000000int && (r - 1) * (r - 1) == 39999600001int) by (nonlinear_arith)
        requires
            r == 200000,
    ;
    assert(d >= r) by {
        if d < r {
            lemma_square_monotonic(d, r - 1);
        }
    }
    let (vx, vy) = throw_velocity(dx, dy);
    lemma_quot_remainder(c * dx, d);
    lemma_quot_remainder(c * dy, d);
    let ax = abs(vx);
    let ay = abs(vy);
    let px = abs(c * dx);
    let py = abs(c * dy);
    assert(px * px + py * py == c * c * n) by (nonlinear_arith)
        requires
            px == abs(c * dx),
            py == abs(c * dy),
            n == dx * dx + dy * dy,
    ;
    assert(vx * vx == ax * ax && vy * vy == ay * ay) by (nonlinear_arith)
        requires
            ax == abs(vx),
            ay == abs(vy),
    ;
    // Upper bound: each rounded component is at most the exact one.
    assert((ax * ax + ay * ay) * (d * d) <= px * px + py * py) by (nonlinear_arith)
        requires
            0 <= ax * d <= px,
            0 <= ay * d <= py,
            d > 0,
    ;
    assert(ax * ax + ay * ay <= c * c) by (nonlinear_arith)
        requires
            (ax * ax + ay * ay) * (d * d) <= c * c * n,
            n <= d * d,
            d > 0,
            c > 0,
    ;
    assert(ax <= c && ay <= c) by (nonlinear_arith)
        requires
            ax * ax + ay * ay <= c * c,
            ax >= 0,
            ay >= 0,
            c > 0,
    ;
    // Lower bound: each rounded component is less than one unit short.
    assert(px * px + py * py < ((ax + 1) * (ax + 1) + (ay + 1) * (ay + 1)) * (d * d)) by (nonlinear_arith)
        requires
            0 <= px < (ax + 1) * d,
            0 <= py < (ay + 1) * d,
            d > 0,
    ;
    assert((d - 1) * (d - 1) < n);
    assert(c * c * ((d - 1) * (d - 1)) < ((ax + 1) * (ax + 1) + (ay + 1) * (ay + 1)) * (d * d)) by (nonlinear_arith)
        requires
            c * c * n < ((ax + 1) * (ax + 1) + (ay + 1) * (ay + 1)) * (d * d),
            (d - 1) * (d - 1) < n,
            c > 0,
    ;
    let s = ax * ax + ay * ay;
    assert((ax + 1) * (ax + 1) + (ay + 1) * (ay + 1) <= s + 4 * c + 2) by (nonlinear_arith)
        requires
            s == ax * ax + ay * ay,
            ax <= c,
            ay <= c,
    ;
    let t = (ax + 1) * (ax + 1) + (ay + 1) * (ay + 1);
    assert(t * (d * d) <= (s + 4 * c + 2) * (d * d)) by (nonlinear_arith)
        requires
            t <= s + 4 * c + 2,
    ;
    if s <= (c - 3) * (c - 3) {
        assert(false) by (nonlinear_arith)
            requires
                c * c * ((d - 1) * (d - 1)) < (s + 4 * c + 2) * (d * d),
                s <= (c - 3) * (c - 3),
                c == 20000,
                d >= 200000,
        ;
    }
}

} // verus!
