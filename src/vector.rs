//! Two-dimensional integer vectors in fixed point.
//!
//! A coordinate is counted in thousandths of a pixel (or of a pixel per
//! second, for velocities), so a vector of length `UNIT` is a unit vector.
use vstd::arithmetic::div_mod::{
    lemma_div_by_self, lemma_div_is_ordered, lemma_div_pos_is_pos, lemma_fundamental_div_mod,
    lemma_mod_bound, lemma_multiply_divide_le, lemma_multiply_divide_lt,
};
use vstd::prelude::*;

verus! {

/// Fixed-point scale: one pixel, or the length of a unit direction.
pub const UNIT: i64 = 1000;

/// Largest magnitude of a coordinate of a well-formed vector.
pub const MAX_COORD: i64 = 1_000_000_000;

/// Longest tick that the controllers accept, in milliseconds.
pub const MAX_DELTA_MS: i64 = 1_000_000;

/// Upper bound of the squared lengths that `isqrt` accepts.
pub const SQ_LIMIT: u64 = 8_000_000_000_000_000_000;

/// Upper bound of any floor square root below `SQ_LIMIT`.
pub const ROOT_LIMIT: u64 = 3_000_000_000;

#[derive(Clone, Copy, Debug, PartialEq, Eq, Structural)]
pub struct Vec2 {
    pub x: i64,
    pub y: i64,
}

pub open spec fn in_bounds(c: int) -> bool {
    -MAX_COORD <= c <= MAX_COORD
}

/// The range of a difference of two in-bounds coordinates.
pub open spec fn in_span(c: int) -> bool {
    -2 * MAX_COORD <= c <= 2 * MAX_COORD
}

/// `c` clamped into the coordinate range.
pub open spec fn clamp_coord(c: int) -> int {
    if c < -MAX_COORD {
        -MAX_COORD as int
    } else if c > MAX_COORD {
        MAX_COORD as int
    } else {
        c
    }
}

/// `r` is the square root of `n`, rounded down.
pub open spec fn is_floor_sqrt(n: int, r: int) -> bool {
    0 <= r && r * r <= n && n < (r + 1) * (r + 1)
}

/// The square root of `n >= 0`, rounded down.
pub open spec fn floor_sqrt(n: int) -> int {
    choose|r: int| is_floor_sqrt(n, r)
}

/// `a / b` rounded toward zero, for `b > 0`.
pub open spec fn div_trunc(a: int, b: int) -> int {
    if a >= 0 {
        a / b
    } else {
        -((-a) / b)
    }
}

/// `a / b` rounded away from zero, for `b > 0`.
pub open spec fn div_away(a: int, b: int) -> int {
    if a >= 0 {
        (a + b - 1) / b
    } else {
        -((-a + b - 1) / b)
    }
}

pub open spec fn sq_len(x: int, y: int) -> int {
    x * x + y * y
}

impl Vec2 {
    pub open spec fn wf(self) -> bool {
        in_bounds(self.x as int) && in_bounds(self.y as int)
    }

    pub open spec fn within_span(self) -> bool {
        in_span(self.x as int) && in_span(self.y as int)
    }

    pub open spec fn is_zero(self) -> bool {
        self.x == 0 && self.y == 0
    }

    /// The floor of the Euclidean length.
    pub open spec fn len_spec(self) -> int {
        floor_sqrt(sq_len(self.x as int, self.y as int))
    }

    pub fn zero() -> (r: Vec2)
        ensures
            r.is_zero(),
            r.wf(),
    {
        Vec2 { x: 0, y: 0 }
    }

    pub fn new(x: i64, y: i64) -> (r: Vec2)
        ensures
            r.x == x,
            r.y == y,
    {
        Vec2 { x, y }
    }
}

/// The magnitude of `c`.
pub open spec fn magnitude(c: int) -> int {
    if c < 0 {
        -c
    } else {
        c
    }
}

/// The coordinate `c` of a non-zero vector of squared length `n`, once the
/// vector is scaled to length `UNIT`: the exact value `c * UNIT / sqrt(n)`
/// rounded toward zero, which is the rounded-down square root of
/// `c * c * UNIT * UNIT / n`, with the sign of `c`.
pub open spec fn unit_coord(c: int, n: int) -> int {
    let m = floor_sqrt(c * c * (UNIT * UNIT) / n);
    if c < 0 {
        -m
    } else {
        m
    }
}

/// What `normalized` returns: the zero vector for the zero vector, and
/// otherwise the direction of `v` scaled to length `UNIT`, each coordinate
/// rounded toward zero.
pub open spec fn normalized_spec(v: Vec2) -> Vec2 {
    if v.is_zero() {
        Vec2 { x: 0, y: 0 }
    } else {
        Vec2 {
            x: unit_coord(v.x as int, sq_len(v.x as int, v.y as int)) as i64,
            y: unit_coord(v.y as int, sq_len(v.x as int, v.y as int)) as i64,
        }
    }
}

/// One coordinate of a step from `f` by `d * delta / len`, rounded away
/// from zero so that a step of at least one unit always moves.
pub open spec fn step_coord(f: int, d: int, delta: int, len: int) -> int {
    f + div_away(d * delta, len)
}

/// What `move_towards` returns: `to` when it lies within `delta`, and
/// otherwise the point `delta` along the way from `from` to `to`.
pub open spec fn move_towards_spec(from: Vec2, to: Vec2, delta: int) -> Vec2 {
    let dx = to.x - from.x;
    let dy = to.y - from.y;
    let len = floor_sqrt(sq_len(dx, dy));
    if len <= delta {
        to
    } else {
        Vec2 {
            x: step_coord(from.x as int, dx, delta, len) as i64,
            y: step_coord(from.y as int, dy, delta, len) as i64,
        }
    }
}

/// What `scale` returns: each coordinate times `num / den`, rounded toward
/// zero and clamped into the coordinate range.
pub open spec fn scale_spec(v: Vec2, num: int, den: int) -> Vec2 {
    Vec2 {
        x: clamp_coord(div_trunc(v.x * num, den)) as i64,
        y: clamp_coord(div_trunc(v.y * num, den)) as i64,
    }
}

/// What `add` returns: the sum, each coordinate clamped.
pub open spec fn add_spec(a: Vec2, b: Vec2) -> Vec2 {
    Vec2 { x: clamp_coord(a.x + b.x) as i64, y: clamp_coord(a.y + b.y) as i64 }
}

proof fn lemma_floor_sqrt_unique(n: int, r1: int, r2: int)
    requires
        is_floor_sqrt(n, r1),
        is_floor_sqrt(n, r2),
    ensures
        r1 == r2,
{
    if r1 < r2 {
        assert((r1 + 1) * (r1 + 1) <= r2 * r2) by (nonlinear_arith)
            requires
                0 <= r1 + 1 <= r2,
        ;
    } else if r2 < r1 {
        assert((r2 + 1) * (r2 + 1) <= r1 * r1) by (nonlinear_arith)
            requires
                0 <= r2 + 1 <= r1,
        ;
    }
}

/// A witness of the floor square root is the floor square root.
proof fn lemma_floor_sqrt_is(n: int, r: int)
    requires
        is_floor_sqrt(n, r),
    ensures
        floor_sqrt(n) == r,
{
    let c = floor_sqrt(n);
    assert(is_floor_sqrt(n, c));
    lemma_floor_sqrt_unique(n, r, c);
}

/// Each coordinate is at most the floor of the length in magnitude.
proof fn lemma_coord_le_len(x: int, y: int, len: int)
    requires
        is_floor_sqrt(sq_len(x, y), len),
    ensures
        -len <= x <= len,
        -len <= y <= len,
{
    assert(x * x <= sq_len(x, y) && y * y <= sq_len(x, y)) by (nonlinear_arith);
    assert(-len <= x <= len) by (nonlinear_arith)
        requires
            x * x < (len + 1) * (len + 1),
            0 <= len,
    ;
    assert(-len <= y <= len) by (nonlinear_arith)
        requires
            y * y < (len + 1) * (len + 1),
            0 <= len,
    ;
}

proof fn lemma_sq_bound(c: int, m: int)
    requires
        -m <= c <= m,
    ensures
        0 <= c * c <= m * m,
{
    assert(0 <= c * c <= m * m) by (nonlinear_arith)
        requires
            -m <= c <= m,
    ;
}

/// For `0 <= a <= len * m`, rounding `a / len` up gives at most `m`.
proof fn lemma_div_up_le(a: int, len: int, m: int)
    requires
        0 <= a <= len * m,
        0 < len,
    ensures
        0 <= (a + len - 1) / len <= m,
{
    assert(a + len - 1 < len * (m + 1)) by (nonlinear_arith)
        requires
            a <= len * m,
            0 < len,
    ;
    lemma_multiply_divide_lt(a + len - 1, len, m + 1);
    lemma_div_pos_is_pos(a + len - 1, len);
}

/// The square root of `n`, rounded down.
pub fn isqrt(n: u64) -> (r: u64)
    requires
        n <= SQ_LIMIT,
    ensures
        is_floor_sqrt(n as int, r as int),
        r <= ROOT_LIMIT,
{
    let mut lo: u64 = 0;
    let mut hi: u64 = ROOT_LIMIT;
    while lo + 1 < hi
        invariant
            lo < hi <= ROOT_LIMIT,
            lo * lo <= n,
            n < hi * hi,
        decreases hi - lo,
    {
        let mid: u64 = lo + (hi - lo) / 2;
        assert(mid * mid <= ROOT_LIMIT * ROOT_LIMIT) by (nonlinear_arith)
            requires
                0 <= mid <= ROOT_LIMIT,
        ;
        if mid * mid <= n {
            lo = mid;
        } else {
            hi = mid;
        }
    }
    lo
}

/// `a / b` rounded toward zero.
fn div_trunc_exec(a: i64, b: i64) -> (r: i64)
    requires
        a > i64::MIN,
        b > 0,
    ensures
        r == div_trunc(a as int, b as int),
{
    if a >= 0 {
        a / b
    } else {
        -((-a) / b)
    }
}

/// `a / b` rounded away from zero.
fn div_away_exec(a: i64, b: i64) -> (r: i64)
    requires
        -6_000_000_000_000_000_000 <= a <= 6_000_000_000_000_000_000,
        0 < b <= ROOT_LIMIT,
    ensures
        r == div_away(a as int, b as int),
{
    if a >= 0 {
        (a + b - 1) / b
    } else {
        -((-a + b - 1) / b)
    }
}

/// `c` clamped into the coordinate range.
fn clamp_exec(c: i64) -> (r: i64)
    ensures
        r == clamp_coord(c as int),
        in_bounds(r as int),
{
    if c < -MAX_COORD {
        -MAX_COORD
    } else if c > MAX_COORD {
        MAX_COORD
    } else {
        c
    }
}

/// One coordinate of `normalized`, with the facts that bound its size:
/// `|r|^2 * n <= c^2 * UNIT^2 < (|r| + 1)^2 * n`.
fn unit_coord_exec(c: i64, n: u64) -> (r: i64)
    requires
        in_span(c as int),
        0 < n <= SQ_LIMIT,
        c * c <= n,
    ensures
        r == unit_coord(c as int, n as int),
        -UNIT <= r <= UNIT,
        magnitude(r as int) * magnitude(r as int) * n <= c * c * (UNIT * UNIT),
        c * c * (UNIT * UNIT) < (magnitude(r as int) + 1) * (magnitude(r as int) + 1) * n,
{
    let ca: u128 = if c < 0 {
        (-c) as u128
    } else {
        c as u128
    };
    assert(ca * ca == c * c && ca * ca <= 4_000_000_000_000_000_000) by (nonlinear_arith)
        requires
            ca == magnitude(c as int),
            -2_000_000_000 <= c <= 2_000_000_000,
    ;
    let a: u128 = ca * ca * 1_000_000;
    let q: u128 = a / (n as u128);
    proof {
        assert(a <= (n as int) * 1_000_000) by (nonlinear_arith)
            requires
                a == ca * ca * 1_000_000,
                ca * ca <= n,
        ;
        lemma_multiply_divide_le(a as int, n as int, 1_000_000);
        lemma_fundamental_div_mod(a as int, n as int);
        lemma_mod_bound(a as int, n as int);
        let ai = a as int;
        let ni = n as int;
        let qi = q as int;
        assert(qi == ai / ni);
        assert(qi * ni <= ai && ai < (qi + 1) * ni) by (nonlinear_arith)
            requires
                ai == ni * qi + ai % ni,
                0 <= ai % ni < ni,
        ;
    }
    let m: u64 = isqrt(q as u64);
    proof {
        lemma_floor_sqrt_is(q as int, m as int);
        assert(m <= 1000) by (nonlinear_arith)
            requires
                m * m <= q,
                q <= 1_000_000,
                0 <= m,
        ;
        assert(m * m * n <= a) by (nonlinear_arith)
            requires
                m * m <= q,
                q * n <= a,
                0 < n,
        ;
        assert(a < (m + 1) * (m + 1) * n) by (nonlinear_arith)
            requires
                q + 1 <= (m + 1) * (m + 1),
                a < (q + 1) * n,
                0 < n,
        ;
    }
    if c < 0 {
        -(m as i64)
    } else {
        m as i64
    }
}

/// Bounds the squared length of a normalised vector from the facts that
/// `unit_coord_exec` gives of its coordinates.
proof fn lemma_unit_length(n: int, ax: int, ay: int, mx: int, my: int)
    requires
        0 < n,
        0 <= mx,
        0 <= my,
        ax + ay == n * (UNIT * UNIT),
        mx * mx * n <= ax,
        my * my * n <= ay,
        ax < (mx + 1) * (mx + 1) * n,
        ay < (my + 1) * (my + 1) * n,
    ensures
        mx * mx + my * my <= UNIT * UNIT,
        (mx + 1) * (mx + 1) + (my + 1) * (my + 1) > UNIT * UNIT,
{
    let lo = mx * mx + my * my;
    let hi = (mx + 1) * (mx + 1) + (my + 1) * (my + 1);
    assert(lo * n <= (UNIT * UNIT) * n) by (nonlinear_arith)
        requires
            lo == mx * mx + my * my,
            mx * mx * n <= ax,
            my * my * n <= ay,
            ax + ay == n * (UNIT * UNIT),
    ;
    assert(hi * n > (UNIT * UNIT) * n) by (nonlinear_arith)
        requires
            hi == (mx + 1) * (mx + 1) + (my + 1) * (my + 1),
            ax < (mx + 1) * (mx + 1) * n,
            ay < (my + 1) * (my + 1) * n,
            ax + ay == n * (UNIT * UNIT),
    ;
    assert(lo <= UNIT * UNIT) by (nonlinear_arith)
        requires
            lo * n <= (UNIT * UNIT) * n,
            0 < n,
    ;
    assert(hi > UNIT * UNIT) by (nonlinear_arith)
        requires
            hi * n > (UNIT * UNIT) * n,
            0 < n,
    ;
}

/// The direction of `v` as a vector of length `UNIT`, each coordinate
/// rounded toward zero, or the zero vector when `v` is zero: no division by
/// zero takes place.
pub fn normalized(v: Vec2) -> (r: Vec2)
    requires
        v.within_span(),
    ensures
        r == normalized_spec(v),
        r.wf(),
        v.is_zero() <==> r.is_zero(),
        -UNIT <= r.x <= UNIT,
        -UNIT <= r.y <= UNIT,
        !v.is_zero() ==> r.x * r.x + r.y * r.y <= UNIT * UNIT,
        !v.is_zero() ==> (magnitude(r.x as int) + 1) * (magnitude(r.x as int) + 1) + (magnitude(
            r.y as int,
        ) + 1) * (magnitude(r.y as int) + 1) > UNIT * UNIT,
{
    if v.x == 0 && v.y == 0 {
        return Vec2::zero();
    }
    proof {
        lemma_sq_bound(v.x as int, 2 * MAX_COORD);
        lemma_sq_bound(v.y as int, 2 * MAX_COORD);
        assert(v.x * v.x >= 0 && v.y * v.y >= 0) by (nonlinear_arith);
        assert(v.x * v.x + v.y * v.y > 0) by (nonlinear_arith)
            requires
                v.x != 0 || v.y != 0,
        ;
    }
    let sq: u64 = (v.x * v.x + v.y * v.y) as u64;
    let x = unit_coord_exec(v.x, sq);
    let y = unit_coord_exec(v.y, sq);
    proof {
        let n = sq as int;
        let ax = v.x * v.x * (UNIT * UNIT);
        let ay = v.y * v.y * (UNIT * UNIT);
        assert(ax + ay == n * (UNIT * UNIT)) by (nonlinear_arith)
            requires
                n == v.x * v.x + v.y * v.y,
                ax == v.x * v.x * (UNIT * UNIT),
                ay == v.y * v.y * (UNIT * UNIT),
        ;
        let mx = magnitude(x as int);
        let my = magnitude(y as int);
        lemma_unit_length(n, ax, ay, mx, my);
        assert(x * x == mx * mx && y * y == my * my) by (nonlinear_arith)
            requires
                mx == magnitude(x as int),
                my == magnitude(y as int),
        ;
        if x == 0 && y == 0 {
            assert(mx == 0 && my == 0);
            assert((mx + 1) * (mx + 1) + (my + 1) * (my + 1) == 2) by (nonlinear_arith)
                requires
                    mx == 0,
                    my == 0,
            ;
            assert(UNIT * UNIT == 1_000_000);
        }
    }
    Vec2 { x, y }
}

/// A step of `d * delta / len`, rounded away from zero, lies between zero
/// and `d`.
proof fn lemma_step_bound(d: int, delta: int, len: int)
    requires
        in_span(d),
        0 <= delta < len,
        len <= ROOT_LIMIT,
        -len <= d <= len,
    ensures
        -6_000_000_000_000_000_000 <= d * delta <= 6_000_000_000_000_000_000,
        d >= 0 ==> 0 <= div_away(d * delta, len) <= d,
        d < 0 ==> d <= div_away(d * delta, len) <= 0,
{
    if d >= 0 {
        assert(0 <= d * delta <= len * d && d * delta <= 6_000_000_000_000_000_000)
            by (nonlinear_arith)
            requires
                0 <= d <= 2_000_000_000,
                0 <= delta < len,
                len <= 3_000_000_000,
        ;
        lemma_div_up_le(d * delta, len, d);
    } else {
        assert(0 <= -(d * delta) <= len * (-d) && -(d * delta) <= 6_000_000_000_000_000_000)
            by (nonlinear_arith)
            requires
                -2_000_000_000 <= d < 0,
                0 <= delta < len,
                len <= 3_000_000_000,
        ;
        if delta == 0 {
            assert(d * delta == 0);
            lemma_div_up_le(0, len, 0);
        } else {
            assert(d * delta < 0) by (nonlinear_arith)
                requires
                    d < 0,
                    delta > 0,
            ;
            lemma_div_up_le(-(d * delta), len, -d);
        }
    }
}

/// Moves `from` toward `to` by at most `delta` (the distance is measured as
/// the floor of the Euclidean length), without passing `to`.
pub fn move_towards(from: Vec2, to: Vec2, delta: i64) -> (r: Vec2)
    requires
        from.wf(),
        to.wf(),
        delta >= 0,
    ensures
        r == move_towards_spec(from, to, delta as int),
        r.wf(),
{
    let dx: i64 = to.x - from.x;
    let dy: i64 = to.y - from.y;
    proof {
        lemma_sq_bound(dx as int, 2 * MAX_COORD);
        lemma_sq_bound(dy as int, 2 * MAX_COORD);
    }
    let sq: u64 = (dx * dx + dy * dy) as u64;
    let len: u64 = isqrt(sq);
    proof {
        lemma_floor_sqrt_is(sq as int, len as int);
        lemma_coord_le_len(dx as int, dy as int, len as int);
    }
    if len as i64 <= delta {
        return to;
    }
    proof {
        lemma_step_bound(dx as int, delta as int, len as int);
        lemma_step_bound(dy as int, delta as int, len as int);
    }
    let sx = div_away_exec(dx * delta, len as i64);
    let sy = div_away_exec(dy * delta, len as i64);
    Vec2 { x: from.x + sx, y: from.y + sy }
}

/// The floor of the distance between two points.
pub fn distance_to(from: Vec2, to: Vec2) -> (r: i64)
    requires
        from.wf(),
        to.wf(),
    ensures
        r == floor_sqrt(sq_len(to.x - from.x, to.y - from.y)),
        0 <= r <= ROOT_LIMIT,
{
    let dx: i64 = to.x - from.x;
    let dy: i64 = to.y - from.y;
    proof {
        lemma_sq_bound(dx as int, 2 * MAX_COORD);
        lemma_sq_bound(dy as int, 2 * MAX_COORD);
    }
    let sq: u64 = (dx * dx + dy * dy) as u64;
    let len: u64 = isqrt(sq);
    proof {
        lemma_floor_sqrt_is(sq as int, len as int);
    }
    len as i64
}

/// The unit direction from `from` toward `to`, or zero where they coincide.
pub fn direction_to(from: Vec2, to: Vec2) -> (r: Vec2)
    requires
        from.wf(),
        to.wf(),
    ensures
        r == normalized_spec(Vec2 { x: (to.x - from.x) as i64, y: (to.y - from.y) as i64 }),
        r.wf(),
        -UNIT <= r.x <= UNIT,
        -UNIT <= r.y <= UNIT,
{
    normalized(Vec2 { x: to.x - from.x, y: to.y - from.y })
}

/// Each coordinate times `num / den`, rounded toward zero and clamped.
pub fn scale(v: Vec2, num: i64, den: i64) -> (r: Vec2)
    requires
        v.wf(),
        -MAX_COORD <= num <= MAX_COORD,
        den > 0,
    ensures
        r == scale_spec(v, num as int, den as int),
        r.wf(),
{
    proof {
        assert(-1_000_000_000_000_000_000 <= v.x * num <= 1_000_000_000_000_000_000)
            by (nonlinear_arith)
            requires
                -MAX_COORD <= v.x <= MAX_COORD,
                -MAX_COORD <= num <= MAX_COORD,
        ;
        assert(-1_000_000_000_000_000_000 <= v.y * num <= 1_000_000_000_000_000_000)
            by (nonlinear_arith)
            requires
                -MAX_COORD <= v.y <= MAX_COORD,
                -MAX_COORD <= num <= MAX_COORD,
        ;
    }
    let x = clamp_exec(div_trunc_exec(v.x * num, den));
    let y = clamp_exec(div_trunc_exec(v.y * num, den));
    Vec2 { x, y }
}

/// The sum of two vectors, each coordinate clamped.
pub fn add_clamped(a: Vec2, b: Vec2) -> (r: Vec2)
    requires
        a.wf(),
        b.wf(),
    ensures
        r == add_spec(a, b),
        r.wf(),
{
    Vec2 { x: clamp_exec(a.x + b.x), y: clamp_exec(a.y + b.y) }
}

/// How far a rate per second carries in `delta_ms` milliseconds.
pub open spec fn step_of(rate: int, delta_ms: int) -> int {
    rate * delta_ms / 1000
}

/// How far a rate per second carries in `delta_ms` milliseconds, rounded
/// down.
pub fn step_amount(rate: i64, delta_ms: i64) -> (r: i64)
    requires
        0 <= rate <= ROOT_LIMIT,
        0 <= delta_ms <= MAX_DELTA_MS,
    ensures
        r == step_of(rate as int, delta_ms as int),
        r >= 0,
{
    assert(0 <= rate * delta_ms <= 3_000_000_000_000_000) by (nonlinear_arith)
        requires
            0 <= rate <= ROOT_LIMIT,
            0 <= delta_ms <= MAX_DELTA_MS,
    ;
    (rate * delta_ms) / 1000
}

/// Rounding `a / len` up gives at least one for `a >= 1`.
proof fn lemma_div_up_pos(a: int, len: int)
    requires
        a >= 1,
        len > 0,
    ensures
        (a + len - 1) / len >= 1,
{
    lemma_div_is_ordered(len, a + len - 1, len);
    lemma_div_by_self(len);
}

/// Friction never overshoots: letting a velocity `v` decay toward zero by
/// the friction `friction` over `delta_ms` keeps each coordinate on its
/// side of zero and no larger in magnitude, and where the step is positive
/// every non-zero coordinate strictly shrinks.
pub proof fn lemma_decay_toward_zero(v: Vec2, friction: int, delta_ms: int)
    requires
        v.wf(),
        0 <= friction <= MAX_COORD,
        0 <= delta_ms <= MAX_DELTA_MS,
    ensures
        ({
            let r = move_towards_spec(v, Vec2 { x: 0, y: 0 }, step_of(friction, delta_ms));
            let step = step_of(friction, delta_ms);
            &&& r.wf()
            &&& v.x >= 0 ==> 0 <= r.x <= v.x
            &&& v.x <= 0 ==> v.x <= r.x <= 0
            &&& v.y >= 0 ==> 0 <= r.y <= v.y
            &&& v.y <= 0 ==> v.y <= r.y <= 0
            &&& step > 0 && v.x > 0 ==> r.x < v.x
            &&& step > 0 && v.x < 0 ==> r.x > v.x
            &&& step > 0 && v.y > 0 ==> r.y < v.y
            &&& step > 0 && v.y < 0 ==> r.y > v.y
        }),
{
    let step = step_of(friction, delta_ms);
    assert(0 <= friction * delta_ms) by (nonlinear_arith)
        requires
            0 <= friction,
            0 <= delta_ms,
    ;
    lemma_div_pos_is_pos(friction * delta_ms, 1000);
    let dx = 0 - v.x;
    let dy = 0 - v.y;
    lemma_sq_bound(dx, 2 * MAX_COORD);
    lemma_sq_bound(dy, 2 * MAX_COORD);
    let n = sq_len(dx, dy);
    assert(n <= SQ_LIMIT);
    let len = floor_sqrt(n);
    assert(is_floor_sqrt(n, len)) by {
        let r = isqrt_witness(n);
        lemma_floor_sqrt_is(n, r);
    }
    lemma_coord_le_len(dx, dy, len);
    assert(len <= ROOT_LIMIT) by (nonlinear_arith)
        requires
            0 <= len,
            len * len <= n,
            n <= SQ_LIMIT,
    ;
    if len > step {
        lemma_step_bound(dx, step, len);
        lemma_step_bound(dy, step, len);
        if step > 0 {
            if dx != 0 {
                assert(dx * step != 0) by (nonlinear_arith)
                    requires
                        dx != 0,
                        step > 0,
                ;
                if dx > 0 {
                    assert(dx * step >= 1) by (nonlinear_arith)
                        requires
                            dx > 0,
                            step > 0,
                    ;
                    lemma_div_up_pos(dx * step, len);
                } else {
                    assert(-(dx * step) >= 1) by (nonlinear_arith)
                        requires
                            dx < 0,
                            step > 0,
                    ;
                    lemma_div_up_pos(-(dx * step), len);
                }
            }
            if dy != 0 {
                if dy > 0 {
                    assert(dy * step >= 1) by (nonlinear_arith)
                        requires
                            dy > 0,
                            step > 0,
                    ;
                    lemma_div_up_pos(dy * step, len);
                } else {
                    assert(-(dy * step) >= 1) by (nonlinear_arith)
                        requires
                            dy < 0,
                            step > 0,
                    ;
                    lemma_div_up_pos(-(dy * step), len);
                }
            }
        }
    }
}

/// The floor square root exists for every `n` that `isqrt` accepts.
proof fn isqrt_witness(n: int) -> (r: int)
    requires
        0 <= n <= SQ_LIMIT,
    ensures
        is_floor_sqrt(n, r),
{
    sqrt_search(n, 0, ROOT_LIMIT as int)
}

/// Binary search for the floor square root between `lo` and `hi`.
proof fn sqrt_search(n: int, lo: int, hi: int) -> (r: int)
    requires
        0 <= lo < hi,
        lo * lo <= n < hi * hi,
    ensures
        is_floor_sqrt(n, r),
    decreases hi - lo,
{
    if lo + 1 >= hi {
        lo
    } else {
        let mid = lo + (hi - lo) / 2;
        if mid * mid <= n {
            sqrt_search(n, mid, hi)
        } else {
            sqrt_search(n, lo, mid)
        }
    }
}

} // verus!
