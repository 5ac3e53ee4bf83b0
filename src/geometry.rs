use vstd::prelude::*;

verus! {

/// A point of the game map, in whole world units.
#[derive(Clone, Copy, PartialEq, Eq, Structural, Debug)]
pub struct Point {
    pub x: i32,
    pub y: i32,
}

impl Point {
    pub fn new(x: i32, y: i32) -> (r: Point)
        ensures
            r.x == x,
            r.y == y,
    {
        Point { x, y }
    }
}

/// Below this distance from its target an entity snaps onto the target and
/// becomes idle instead of taking another step.
pub const SNAP_DISTANCE: u64 = 10;

/// Squared Euclidean distance between two points.
pub open spec fn dist_sq(a: Point, b: Point) -> int {
    (b.x - a.x) * (b.x - a.x) + (b.y - a.y) * (b.y - a.y)
}

/// `r` is the integer square root of `n`, rounded down.
pub open spec fn is_floor_sqrt(n: int, r: int) -> bool {
    0 <= r && r * r <= n && n < (r + 1) * (r + 1)
}

pub open spec fn floor_sqrt(n: int) -> int {
    choose|r: int| is_floor_sqrt(n, r)
}

/// Moves coordinate `c` along the signed delta `d` by the fraction
/// `travel / len`, truncating toward `c`.
pub open spec fn advance(c: int, d: int, travel: int, len: int) -> int {
    if d >= 0 {
        c + d * travel / len
    } else {
        c - (-d) * travel / len
    }
}

/// One tick of the movement rule: an entity at `pos` heading for `target`
/// may travel at most `travel` units. Near the target (closer than
/// `SNAP_DISTANCE`), or when the target is within reach, it lands on the target
/// and becomes idle; otherwise it moves `travel` units along the straight line
/// (the length of that line rounded down) and keeps its target.
pub open spec fn step_spec(pos: Point, target: Option<Point>, travel: int) -> (Point, Option<Point>) {
    match target {
        None => (pos, None),
        Some(t) => {
            let dsq = dist_sq(pos, t);
            if dsq < SNAP_DISTANCE * SNAP_DISTANCE || travel * travel >= dsq {
                (t, None)
            } else {
                let len = floor_sqrt(dsq);
                (
                    Point {
                        x: advance(pos.x as int, t.x - pos.x, travel, len) as i32,
                        y: advance(pos.y as int, t.y - pos.y, travel, len) as i32,
                    },
                    Some(t),
                )
            }
        },
    }
}

proof fn lemma_floor_sqrt_unique(n: int, r: int)
    requires
        is_floor_sqrt(n, r),
    ensures
        floor_sqrt(n) == r,
{
    let s = floor_sqrt(n);
    assert(is_floor_sqrt(n, s));
    if s < r {
        assert((s + 1) * (s + 1) <= r * r) by (nonlinear_arith)
            requires
                0 <= s,
                s + 1 <= r,
        ;
    } else if r < s {
        assert((r + 1) * (r + 1) <= s * s) by (nonlinear_arith)
            requires
                0 <= r,
                r + 1 <= s,
        ;
    }
}

/// Integer square root, rounded down, by bisection.
pub fn isqrt(n: u128) -> (r: u64)
    requires
        n < 0x4_0000_0000_0000_0000u128,
    ensures
        is_floor_sqrt(n as int, r as int),
        r as int == floor_sqrt(n as int),
{
    let mut lo: u128 = 0;
    let mut hi: u128 = 0x2_0000_0000u128;
    assert(hi * hi == 0x4_0000_0000_0000_0000u128);
    while hi - lo > 1
        invariant
            lo < hi <= 0x2_0000_0000u128,
            lo * lo <= n,
            n < hi * hi,
        decreases hi - lo,
    {
        let mid: u128 = lo + (hi - lo) / 2;
        assert(mid * mid <= 0x4_0000_0000_0000_0000u128) by (nonlinear_arith)
            requires
                mid <= 0x2_0000_0000u128,
        ;
        if mid * mid <= n {
            lo = mid;
        } else {
            hi = mid;
        }
    }
    proof {
        lemma_floor_sqrt_unique(n as int, lo as int);
    }
    lo as u64
}

/// The coordinate reached from `c` when moving along delta `d` by
/// `travel / len` of it; stays between `c` and `c + d`.
fn advance_coord(c: i32, d: i64, travel: u64, len: u64) -> (r: i32)
    requires
        0 < len,
        travel <= len,
        i32::MIN <= c + d <= i32::MAX,
        -0x1_0000_0000 < d < 0x1_0000_0000,
    ensures
        r as int == advance(c as int, d as int, travel as int, len as int),
{
    let mag: u128 = if d >= 0 {
        d as u128
    } else {
        (-d) as u128
    };
    proof {
        assert(mag * travel <= mag * len) by (nonlinear_arith)
            requires
                travel <= len,
        ;
        assert(mag * travel < 0x1_0000_0000 * 0x1_0000_0000_0000_0000) by (nonlinear_arith)
            requires
                mag < 0x1_0000_0000,
                travel < 0x1_0000_0000_0000_0000,
        ;
        assert((mag * len) / (len as int) == mag) by (nonlinear_arith)
            requires
                len > 0,
        ;
        vstd::arithmetic::div_mod::lemma_div_is_ordered(
            (mag * travel) as int,
            (mag * len) as int,
            len as int,
        );
    }
    let part: u128 = mag * (travel as u128) / (len as u128);
    assert(part <= mag);
    if d >= 0 {
        (c as i64 + part as i64) as i32
    } else {
        (c as i64 - part as i64) as i32
    }
}

/// Applies one tick of the movement rule: `step_spec` computed exactly.
pub fn step_toward(pos: Point, target: Option<Point>, travel: u64) -> (r: (Point, Option<Point>))
    ensures
        r == step_spec(pos, target, travel as int),
{
    match target {
        None => (pos, None),
        Some(t) => {
            let dx: i64 = t.x as i64 - pos.x as i64;
            let dy: i64 = t.y as i64 - pos.y as i64;
            let wx: i128 = dx as i128;
            let wy: i128 = dy as i128;
            proof {
                assert(0 <= wx * wx < 0x1_0000_0000_0000_0000) by (nonlinear_arith)
                    requires
                        -0x1_0000_0000 < wx < 0x1_0000_0000,
                ;
                assert(0 <= wy * wy < 0x1_0000_0000_0000_0000) by (nonlinear_arith)
                    requires
                        -0x1_0000_0000 < wy < 0x1_0000_0000,
                ;
            }
            let dsq: u128 = (wx * wx + wy * wy) as u128;
            assert(dsq == dist_sq(pos, t));
            let snap: u128 = SNAP_DISTANCE as u128;
            let reach: u128 = travel as u128;
            assert(reach * reach <= u64::MAX * u64::MAX) by (nonlinear_arith)
                requires
                    reach <= u64::MAX,
            ;
            if dsq < snap * snap || reach * reach >= dsq {
                (t, None)
            } else {
                let len = isqrt(dsq);
                proof {
                    assert(travel <= len) by (nonlinear_arith)
                        requires
                            travel * travel < dsq,
                            dsq < (len + 1) * (len + 1),
                            0 <= len,
                    ;
                    assert(len > 0) by (nonlinear_arith)
                        requires
                            len * len <= dsq < (len + 1) * (len + 1),
                            dsq >= 100,
                    ;
                }
                let x = advance_coord(pos.x, dx, travel, len);
                let y = advance_coord(pos.y, dy, travel, len);
                (Point { x, y }, Some(t))
            }
        },
    }
}

/// The per-tick travel budget: `speed` units per tenth of a second, so a tick
/// of `tick_ms` milliseconds covers `speed * tick_ms / 10` units.
pub fn max_travel(speed: u32, tick_ms: u32) -> (r: u64)
    ensures
        r == speed * tick_ms / 10,
{
    assert(speed as u64 * tick_ms as u64 <= u32::MAX as u64 * u32::MAX as u64) by (nonlinear_arith)
        requires
            speed <= u32::MAX,
            tick_ms <= u32::MAX,
    ;
    (speed as u64 * tick_ms as u64) / 10
}

/// The four diagonal headings an entity can face.
#[derive(Clone, Copy, PartialEq, Eq, Structural, Debug)]
pub enum Direction {
    TopLeft,
    TopRight,
    BotLeft,
    BotRight,
}

/// The heading of a movement vector, by the signs of its components
/// (zero counts as positive).
pub open spec fn direction_of(x: int, y: int) -> Direction {
    if x >= 0 && y >= 0 {
        Direction::TopRight
    } else if x < 0 && y >= 0 {
        Direction::TopLeft
    } else if x < 0 && y < 0 {
        Direction::BotLeft
    } else {
        Direction::BotRight
    }
}

impl Direction {
    /// The heading of the movement vector `(x, y)`.
    pub fn from(x: i64, y: i64) -> (r: Direction)
        ensures
            r == direction_of(x as int, y as int),
    {
        if x >= 0 && y >= 0 {
            Direction::TopRight
        } else if x < 0 && y >= 0 {
            Direction::TopLeft
        } else if x < 0 && y < 0 {
            Direction::BotLeft
        } else {
            Direction::BotRight
        }
    }
}

} // verus!
