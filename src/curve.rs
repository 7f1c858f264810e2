use vstd::prelude::*;

verus! {

/// Margin kept above the warmest and below the coldest day, in hundredths
/// of a degree.
pub const TEMPERATURE_MARGIN: i64 = 500;

/// One step of a vector path. A coordinate is a numerator: the point's
/// abscissa is `x / x_scale` and its ordinate `y / y_scale`, with the
/// scales of the enclosing [`ForecastPath`].
#[derive(Clone, Copy, Debug, PartialEq, Eq, Structural)]
pub enum PathCommand {
    MoveTo { x: i128, y: i128 },
    /// A quadratic Bezier segment through control point `(cx, cy)` to `(x, y)`.
    QuadTo { cx: i128, cy: i128, x: i128, y: i128 },
}

/// A smooth curve through daily temperatures, with exact coordinates.
#[derive(Clone, Debug)]
pub struct ForecastPath {
    pub x_scale: i128,
    pub y_scale: i128,
    /// Bottom of the plotted range, in hundredths of a degree.
    pub min_temp: i64,
    /// Top of the plotted range, in hundredths of a degree.
    pub max_temp: i64,
    pub commands: Vec<PathCommand>,
}

/// Ordinate numerator of temperature `t` (over a scale of twice the range).
pub open spec fn y_of(max: int, t: int, h: int) -> int {
    (2 * (max - t)) * h
}

/// The first half of the step from day `i` to day `i + 1`: controlled at
/// day `i`'s height, a quarter column to its right, ending at the midpoint.
pub open spec fn first_half(s: Seq<i32>, w: int, h: int, max: int, i: int) -> PathCommand {
    PathCommand::QuadTo {
        cx: ((4 * i + 3) * w) as i128,
        cy: y_of(max, s[i] as int, h) as i128,
        x: ((4 * i + 4) * w) as i128,
        y: (((max - s[i]) + (max - s[i + 1])) * h) as i128,
    }
}

/// The second half: controlled at day `i + 1`'s height, a quarter column to
/// the left of it, ending at day `i + 1`'s point.
pub open spec fn second_half(s: Seq<i32>, w: int, h: int, max: int, i: int) -> PathCommand {
    PathCommand::QuadTo {
        cx: ((4 * i + 5) * w) as i128,
        cy: y_of(max, s[i + 1] as int, h) as i128,
        x: ((4 * i + 6) * w) as i128,
        y: y_of(max, s[i + 1] as int, h) as i128,
    }
}

/// `r` is the curve through the days `s` (hundredths of a degree) in a
/// `w` by `h` frame: the plotted range runs from the coldest day less the
/// margin to the warmest plus the margin; day `i` sits at the middle of its
/// column, `(4i + 2) w / 4n`; warmer is higher up. The path visits the four
/// corners, moves to the first day and then joins each day to the next by
/// two quadratic segments.
pub open spec fn is_forecast_path(r: ForecastPath, s: Seq<i32>, w: int, h: int) -> bool {
    let n = s.len() as int;
    let c = r.commands@;
    let range = r.max_temp - r.min_temp;
    &&& forall|k: int| 0 <= k < n ==> r.min_temp + TEMPERATURE_MARGIN <= #[trigger] s[k]
        && s[k] <= r.max_temp - TEMPERATURE_MARGIN
    &&& exists|k: int| 0 <= k < n && #[trigger] s[k] == r.min_temp + TEMPERATURE_MARGIN
    &&& exists|k: int| 0 <= k < n && #[trigger] s[k] == r.max_temp - TEMPERATURE_MARGIN
    &&& r.x_scale == 4 * n
    &&& r.y_scale == 2 * range
    &&& c.len() == 2 * n + 3
    &&& c[0] == PathCommand::MoveTo { x: 0, y: 0 }
    &&& c[1] == PathCommand::MoveTo { x: (4 * n * w) as i128, y: 0 }
    &&& c[2] == PathCommand::MoveTo { x: (4 * n * w) as i128, y: (2 * range * h) as i128 }
    &&& c[3] == PathCommand::MoveTo { x: 0, y: (2 * range * h) as i128 }
    &&& c[4] == PathCommand::MoveTo { x: (2 * w) as i128, y: y_of(r.max_temp as int, s[0] as int, h) as i128 }
    &&& forall|i: int|
        0 <= i < n - 1 ==> #[trigger] c[5 + 2 * i] == first_half(s, w, h, r.max_temp as int, i)
            && c[6 + 2 * i] == second_half(s, w, h, r.max_temp as int, i)
}

fn x_at(quarter: i128, w: u32) -> (r: i128)
    requires
        0 <= quarter <= 4 * (usize::MAX as int) + 8,
    ensures
        r == quarter * w,
{
    proof {
        assert(quarter * (w as int) <= (4 * (usize::MAX as int) + 8) * (u32::MAX as int)) by (nonlinear_arith)
            requires
                0 <= quarter <= 4 * (usize::MAX as int) + 8,
                0 <= w <= u32::MAX,
        ;
        assert(0 <= quarter * (w as int)) by (nonlinear_arith)
            requires
                0 <= quarter,
                0 <= w,
        ;
    }
    quarter * (w as i128)
}

fn y_at(depth: i64, h: u32) -> (r: i128)
    requires
        0 <= depth <= 0x4_0000_0000,
    ensures
        r == depth * h,
{
    proof {
        assert(depth * (h as int) <= 0x4_0000_0000 * (u32::MAX as int)) by (nonlinear_arith)
            requires
                0 <= depth <= 0x4_0000_0000,
                0 <= h <= u32::MAX,
        ;
        assert(0 <= depth * (h as int)) by (nonlinear_arith)
            requires
                0 <= depth,
                0 <= h,
        ;
    }
    (depth as i128) * (h as i128)
}

/// The smooth forecast curve through `day_temperatures` (hundredths of a
/// degree, one per day) in a `width` by `height` frame. With no day, no
/// width or no height the path is empty.
pub fn forecast_graph_command(day_temperatures: &Vec<i32>, width: u32, height: u32) -> (r: ForecastPath)
    ensures
        day_temperatures@.len() == 0 || width == 0 || height == 0 ==> r.commands@.len() == 0,
        day_temperatures@.len() > 0 && width > 0 && height > 0 ==> is_forecast_path(
            r,
            day_temperatures@,
            width as int,
            height as int,
        ),
{
    let n = day_temperatures.len();
    if n == 0 || width == 0 || height == 0 {
        return ForecastPath { x_scale: 1, y_scale: 1, min_temp: 0, max_temp: 0, commands: Vec::new() };
    }
    let ghost s = day_temperatures@;
    let mut lo: i32 = day_temperatures[0];
    let mut hi: i32 = day_temperatures[0];
    let ghost mut lo_at: int = 0;
    let ghost mut hi_at: int = 0;
    let mut i: usize = 1;
    while i < n
        invariant
            1 <= i <= n,
            n == s.len(),
            s == day_temperatures@,
            0 <= lo_at < i && s[lo_at] == lo,
            0 <= hi_at < i && s[hi_at] == hi,
            forall|k: int| 0 <= k < i ==> lo <= #[trigger] s[k] && s[k] <= hi,
        decreases n - i,
    {
        let t = day_temperatures[i];
        if t < lo {
            lo = t;
            proof { lo_at = i as int; }
        }
        if t > hi {
            hi = t;
            proof { hi_at = i as int; }
        }
        i = i + 1;
    }
    let min_temp: i64 = lo as i64 - TEMPERATURE_MARGIN;
    let max_temp: i64 = hi as i64 + TEMPERATURE_MARGIN;
    let range: i64 = max_temp - min_temp;
    let last_quarter = 4 * (n as i128);
    let right = x_at(last_quarter, width);
    let bottom = y_at(2 * range, height);
    let mut commands: Vec<PathCommand> = Vec::new();
    commands.push(PathCommand::MoveTo { x: 0, y: 0 });
    commands.push(PathCommand::MoveTo { x: right, y: 0 });
    commands.push(PathCommand::MoveTo { x: right, y: bottom });
    commands.push(PathCommand::MoveTo { x: 0, y: bottom });
    let first_y = y_at(2 * (max_temp - day_temperatures[0] as i64), height);
    let first_x = x_at(2, width);
    commands.push(PathCommand::MoveTo { x: first_x, y: first_y });
    let ghost w = width as int;
    let ghost h = height as int;
    let mut d: usize = 0;
    while d + 1 < n
        invariant
            n == s.len(),
            s == day_temperatures@,
            w == width as int,
            h == height as int,
            range == max_temp - min_temp,
            d < n,
            forall|k: int| 0 <= k < n ==> min_temp + TEMPERATURE_MARGIN <= #[trigger] s[k]
                && s[k] <= max_temp - TEMPERATURE_MARGIN,
            min_temp + TEMPERATURE_MARGIN == lo,
            max_temp - TEMPERATURE_MARGIN == hi,
            commands@.len() == 5 + 2 * d,
            commands@[0] == (PathCommand::MoveTo { x: 0, y: 0 }),
            right == 4 * n * w,
            bottom == 2 * range * h,
            first_y == y_of(max_temp as int, s[0] as int, h),
            commands@[1] == (PathCommand::MoveTo { x: right, y: 0 }),
            commands@[2] == (PathCommand::MoveTo { x: right, y: bottom }),
            commands@[3] == (PathCommand::MoveTo { x: 0, y: bottom }),
            first_x == 2 * w,
            commands@[4] == (PathCommand::MoveTo { x: first_x, y: first_y }),
            forall|k: int|
                0 <= k < d ==> #[trigger] commands@[5 + 2 * k] == first_half(s, w, h, max_temp as int, k)
                    && commands@[6 + 2 * k] == second_half(s, w, h, max_temp as int, k),
        decreases n - d,
    {
        let t1 = day_temperatures[d] as i64;
        let t2 = day_temperatures[d + 1] as i64;
        let q = 4 * (d as i128);
        let y1 = y_at(2 * (max_temp - t1), height);
        let y2 = y_at(2 * (max_temp - t2), height);
        let y_mid = y_at((max_temp - t1) + (max_temp - t2), height);
        let ghost before = commands@;
        let a = PathCommand::QuadTo { cx: x_at(q + 3, width), cy: y1, x: x_at(q + 4, width), y: y_mid };
        let b = PathCommand::QuadTo { cx: x_at(q + 5, width), cy: y2, x: x_at(q + 6, width), y: y2 };
        assert(t1 == s[d as int] && t2 == s[d + 1]);
        assert(a == first_half(s, w, h, max_temp as int, d as int));
        assert(b == second_half(s, w, h, max_temp as int, d as int));
        commands.push(a);
        commands.push(b);
        assert forall|k: int|
            0 <= k < d + 1 implies #[trigger] commands@[5 + 2 * k] == first_half(s, w, h, max_temp as int, k)
                && commands@[6 + 2 * k] == second_half(s, w, h, max_temp as int, k) by {
            if k < d {
                assert(commands@[5 + 2 * k] == before[5 + 2 * k]);
                assert(commands@[6 + 2 * k] == before[6 + 2 * k]);
            } else {
                assert(k == d);
                assert(commands@[5 + 2 * k] == commands@[before.len() as int]);
                assert(commands@[6 + 2 * k] == commands@[before.len() as int + 1]);
            }
        }
        d = d + 1;
    }
    ForecastPath { x_scale: 4 * (n as i128), y_scale: 2 * (range as i128), min_temp, max_temp, commands }
}

} // verus!
