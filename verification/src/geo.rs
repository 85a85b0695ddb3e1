//! From longitude and latitude to the unit square, and from there to the
//! screen and back.

use vstd::prelude::*;

verus! {

/// Steps of longitude or latitude in one degree.
pub const MICROS_PER_DEGREE: i32 = 1_000_000;

/// 180 degrees: the longitudes run from `-HALF_TURN` to `HALF_TURN`.
pub const HALF_TURN: i64 = 180_000_000;

/// 90 degrees: the latitudes run from `-QUARTER_TURN` to `QUARTER_TURN`.
pub const QUARTER_TURN: i64 = 90_000_000;

/// Steps across one side of the unit square, and steps of a position in one
/// pixel.
pub const NORM_ONE: i64 = 360_000_000;

/// What is added to every longitude before it is drawn: the map image is
/// centred 150 degrees east of the prime meridian.
pub const MAP_LONGITUDE_OFFSET: i32 = -150_000_000;

/// What is added to every latitude before it is drawn.
pub const MAP_LATITUDE_OFFSET: i32 = 0;

/// The widest and the tallest rectangle, in pixels, that a map is drawn in.
pub const MAX_EXTENT: i32 = 1_048_576;

/// The farthest a normalised coordinate may lie from zero.
pub const NORM_LIMIT: i64 = 0x100_0000_0000;

/// The farthest a screen coordinate may lie from zero.
pub const SCREEN_LIMIT: i64 = 0x2000_0000_0000_0000;

/// A point of the plane in which the map image is the unit square: `x` runs
/// from 0 at the left edge to `NORM_ONE` at the right edge, `y` from 0 at the
/// top to `NORM_ONE` at the bottom.
#[derive(Clone, Copy, Debug, PartialEq, Eq, Structural)]
pub struct NormPoint {
    pub x: i64,
    pub y: i64,
}

/// A position on the screen, in steps of `1 / NORM_ONE` pixel.
#[derive(Clone, Copy, Debug, PartialEq, Eq, Structural)]
pub struct ScreenPoint {
    pub x: i64,
    pub y: i64,
}

/// A rectangle of whole pixels.
#[derive(Clone, Copy, Debug, PartialEq, Eq, Structural)]
pub struct Rect {
    pub left: i32,
    pub top: i32,
    pub width: i32,
    pub height: i32,
}

impl NormPoint {
    /// The point is close enough to the unit square to be placed on a screen.
    pub open spec fn in_reach(self) -> bool {
        -NORM_LIMIT <= self.x <= NORM_LIMIT && -NORM_LIMIT <= self.y <= NORM_LIMIT
    }

    /// Tests `in_reach`.
    pub fn is_in_reach(&self) -> (b: bool)
        ensures
            b == self.in_reach(),
    {
        -NORM_LIMIT <= self.x && self.x <= NORM_LIMIT && -NORM_LIMIT <= self.y && self.y
            <= NORM_LIMIT
    }
}

impl ScreenPoint {
    /// The position can be taken back to the unit square without overflow.
    pub open spec fn in_reach(self) -> bool {
        -SCREEN_LIMIT <= self.x <= SCREEN_LIMIT && -SCREEN_LIMIT <= self.y <= SCREEN_LIMIT
    }

    /// Tests `in_reach`.
    pub fn is_in_reach(&self) -> (b: bool)
        ensures
            b == self.in_reach(),
    {
        -SCREEN_LIMIT <= self.x && self.x <= SCREEN_LIMIT && -SCREEN_LIMIT <= self.y && self.y
            <= SCREEN_LIMIT
    }
}

impl Rect {
    /// A rectangle that a map can be drawn in: not empty, and no larger than
    /// `MAX_EXTENT` either way.
    pub open spec fn viewport(self) -> bool {
        0 < self.width <= MAX_EXTENT && 0 < self.height <= MAX_EXTENT
    }

    /// Tests `viewport`.
    pub fn is_viewport(&self) -> (b: bool)
        ensures
            b == self.viewport(),
    {
        0 < self.width && self.width <= MAX_EXTENT && 0 < self.height && self.height <= MAX_EXTENT
    }

    /// A rectangle whose sides can be counted in steps: none is negative, and
    /// none longer than `MAX_EXTENT`. It may be empty.
    pub open spec fn in_bounds(self) -> bool {
        0 <= self.width <= MAX_EXTENT && 0 <= self.height <= MAX_EXTENT
    }

    /// Tests `in_bounds`.
    pub fn is_in_bounds(&self) -> (b: bool)
        ensures
            b == self.in_bounds(),
    {
        0 <= self.width && self.width <= MAX_EXTENT && 0 <= self.height && self.height <= MAX_EXTENT
    }

    /// The rectangle at the origin with no extent.
    pub fn zero() -> (r: Rect)
        ensures
            r == (Rect { left: 0, top: 0, width: 0, height: 0 }),
    {
        Rect { left: 0, top: 0, width: 0, height: 0 }
    }

    /// The corner where the left and the top edge meet.
    pub open spec fn spec_top_left(self) -> ScreenPoint {
        ScreenPoint { x: (self.left * NORM_ONE) as i64, y: (self.top * NORM_ONE) as i64 }
    }

    /// The corner where the right and the top edge meet.
    pub open spec fn spec_top_right(self) -> ScreenPoint {
        ScreenPoint {
            x: ((self.left + self.width) * NORM_ONE) as i64,
            y: (self.top * NORM_ONE) as i64,
        }
    }

    /// The corner where the left and the bottom edge meet.
    pub open spec fn spec_bottom_left(self) -> ScreenPoint {
        ScreenPoint {
            x: (self.left * NORM_ONE) as i64,
            y: ((self.top + self.height) * NORM_ONE) as i64,
        }
    }

    /// The corner where the right and the bottom edge meet.
    pub open spec fn spec_bottom_right(self) -> ScreenPoint {
        ScreenPoint {
            x: ((self.left + self.width) * NORM_ONE) as i64,
            y: ((self.top + self.height) * NORM_ONE) as i64,
        }
    }

    /// The middle of the rectangle.
    pub open spec fn spec_center(self) -> ScreenPoint {
        ScreenPoint {
            x: ((2 * self.left + self.width) * (NORM_ONE / 2)) as i64,
            y: ((2 * self.top + self.height) * (NORM_ONE / 2)) as i64,
        }
    }

    /// The corner where the left and the top edge meet.
    #[verifier::when_used_as_spec(spec_top_left)]
    pub fn top_left(self) -> (p: ScreenPoint)
        requires
            self.in_bounds(),
        ensures
            p == self.spec_top_left(),
    {
        to_ui_coords(NormPoint { x: 0, y: 0 }, self)
    }

    /// The corner where the right and the top edge meet.
    #[verifier::when_used_as_spec(spec_top_right)]
    pub fn top_right(self) -> (p: ScreenPoint)
        requires
            self.in_bounds(),
        ensures
            p == self.spec_top_right(),
    {
        proof {
            lemma_edge(self.left as int, self.width as int);
        }
        to_ui_coords(NormPoint { x: NORM_ONE, y: 0 }, self)
    }

    /// The corner where the left and the bottom edge meet.
    #[verifier::when_used_as_spec(spec_bottom_left)]
    pub fn bottom_left(self) -> (p: ScreenPoint)
        requires
            self.in_bounds(),
        ensures
            p == self.spec_bottom_left(),
    {
        proof {
            lemma_edge(self.top as int, self.height as int);
        }
        to_ui_coords(NormPoint { x: 0, y: NORM_ONE }, self)
    }

    /// The corner where the right and the bottom edge meet.
    #[verifier::when_used_as_spec(spec_bottom_right)]
    pub fn bottom_right(self) -> (p: ScreenPoint)
        requires
            self.in_bounds(),
        ensures
            p == self.spec_bottom_right(),
    {
        proof {
            lemma_edge(self.left as int, self.width as int);
            lemma_edge(self.top as int, self.height as int);
        }
        to_ui_coords(NormPoint { x: NORM_ONE, y: NORM_ONE }, self)
    }

    /// The middle of the rectangle.
    #[verifier::when_used_as_spec(spec_center)]
    pub fn center(self) -> (p: ScreenPoint)
        requires
            self.in_bounds(),
        ensures
            p == self.spec_center(),
    {
        proof {
            lemma_edge(self.left as int, self.width as int);
            lemma_edge(self.top as int, self.height as int);
        }
        to_ui_coords(NormPoint { x: NORM_ONE / 2, y: NORM_ONE / 2 }, self)
    }
}

/// The far edge and the middle of a span that starts at `start` and is
/// `extent` pixels long, in steps.
proof fn lemma_edge(start: int, extent: int)
    ensures
        NORM_ONE * extent + start * NORM_ONE == (start + extent) * NORM_ONE,
        (NORM_ONE / 2) * extent + start * NORM_ONE == (2 * start + extent) * (NORM_ONE / 2),
{
    assert(NORM_ONE * extent + start * NORM_ONE == (start + extent) * NORM_ONE)
        by (nonlinear_arith);
    assert((NORM_ONE / 2) * extent + start * NORM_ONE == (2 * start + extent) * (NORM_ONE / 2))
        by (nonlinear_arith);
}

/// A value moved back by one width of the range `lo..=hi` where it lies above
/// it, forward by one width where it lies below it, and left alone inside.
pub open spec fn wrap_spec(value: int, lo: int, hi: int) -> int {
    if value > hi {
        value - (hi - lo)
    } else if value < lo {
        value + (hi - lo)
    } else {
        value
    }
}

/// Brings `value` towards the range `lo..=hi` by at most one width of the
/// range. A value that lies no more than one width outside lands inside; one
/// that lies farther out stays outside, one width nearer.
pub fn wrap(value: i64, lo: i32, hi: i32) -> (r: i64)
    requires
        lo <= hi,
    ensures
        r == wrap_spec(value as int, lo as int, hi as int),
        lo <= value <= hi ==> r == value,
        lo - (hi - lo) <= value <= hi + (hi - lo) ==> lo <= r <= hi,
        r == value || r == value - (hi - lo) || r == value + (hi - lo),
{
    let width: i64 = hi as i64 - lo as i64;
    if value > hi as i64 {
        value - width
    } else if value < lo as i64 {
        value + width
    } else {
        value
    }
}

/// A longitude moved by `offset`, and wrapped once round the globe.
pub open spec fn offset_longitude_spec(longitude: int, offset: int) -> int {
    wrap_spec(longitude + offset, -(HALF_TURN as int), HALF_TURN as int)
}

/// A latitude moved by `offset`, and wrapped once from pole to pole.
pub open spec fn offset_latitude_spec(latitude: int, offset: int) -> int {
    wrap_spec(latitude + offset, -(QUARTER_TURN as int), QUARTER_TURN as int)
}

/// Moves a longitude by `offset` and wraps the sum once round the globe.
pub fn offset_longitude(longitude: i32, offset: i32) -> (r: i64)
    ensures
        r == offset_longitude_spec(longitude as int, offset as int),
        -HALF_TURN <= longitude + offset <= HALF_TURN ==> r == longitude + offset,
        -3 * HALF_TURN <= longitude + offset <= 3 * HALF_TURN ==> -HALF_TURN <= r <= HALF_TURN,
        -0x2_0000_0000 <= r <= 0x2_0000_0000,
{
    wrap(longitude as i64 + offset as i64, -180_000_000, 180_000_000)
}

/// Moves a latitude by `offset` and wraps the sum once from pole to pole.
pub fn offset_latitude(latitude: i32, offset: i32) -> (r: i64)
    ensures
        r == offset_latitude_spec(latitude as int, offset as int),
        -QUARTER_TURN <= latitude + offset <= QUARTER_TURN ==> r == latitude + offset,
        -3 * QUARTER_TURN <= latitude + offset <= 3 * QUARTER_TURN ==> -QUARTER_TURN <= r
            <= QUARTER_TURN,
        -0x2_0000_0000 <= r <= 0x2_0000_0000,
{
    wrap(latitude as i64 + offset as i64, -90_000_000, 90_000_000)
}

/// Where a place lies in the unit square of an equirectangular map whose
/// centre is moved by the two offsets: `x = lon' / 360 + 1/2` and
/// `y = 1/2 - lat' / 180`, in steps of `1 / NORM_ONE`.
pub open spec fn to_norm_coords_spec(
    longitude: int,
    latitude: int,
    offset_lon: int,
    offset_lat: int,
) -> NormPoint {
    NormPoint {
        x: (offset_longitude_spec(longitude, offset_lon) + HALF_TURN) as i64,
        y: (HALF_TURN - 2 * offset_latitude_spec(latitude, offset_lat)) as i64,
    }
}

/// Converts longitude and latitude to normalised coordinates.
pub fn to_norm_coords(longitude: i32, latitude: i32, offset_lon: i32, offset_lat: i32) -> (n:
    NormPoint)
    ensures
        n == to_norm_coords_spec(
            longitude as int,
            latitude as int,
            offset_lon as int,
            offset_lat as int,
        ),
        n.x == offset_longitude_spec(longitude as int, offset_lon as int) + HALF_TURN,
        n.y == HALF_TURN - 2 * offset_latitude_spec(latitude as int, offset_lat as int),
        n.in_reach(),
{
    let lon: i64 = offset_longitude(longitude, offset_lon);
    let lat: i64 = offset_latitude(latitude, offset_lat);
    NormPoint { x: lon + HALF_TURN, y: HALF_TURN - 2 * lat }
}

/// The screen position of a point of the unit square when the square is
/// stretched over `area`.
pub open spec fn to_ui_coords_spec(norm: NormPoint, area: Rect) -> ScreenPoint {
    ScreenPoint {
        x: (norm.x * area.width + area.left * NORM_ONE) as i64,
        y: (norm.y * area.height + area.top * NORM_ONE) as i64,
    }
}

/// Converts normalised coordinates to screen coordinates.
pub fn to_ui_coords(norm: NormPoint, area: Rect) -> (p: ScreenPoint)
    requires
        norm.in_reach(),
        area.in_bounds(),
    ensures
        p == to_ui_coords_spec(norm, area),
        p.x == norm.x * area.width + area.left * NORM_ONE,
        p.y == norm.y * area.height + area.top * NORM_ONE,
        p.in_reach(),
{
    let w: i64 = area.width as i64;
    let h: i64 = area.height as i64;
    assert(-NORM_LIMIT * MAX_EXTENT <= norm.x * w <= NORM_LIMIT * MAX_EXTENT) by (nonlinear_arith)
        requires
            -NORM_LIMIT <= norm.x <= NORM_LIMIT,
            0 <= w <= MAX_EXTENT,
    ;
    assert(-NORM_LIMIT * MAX_EXTENT <= norm.y * h <= NORM_LIMIT * MAX_EXTENT) by (nonlinear_arith)
        requires
            -NORM_LIMIT <= norm.y <= NORM_LIMIT,
            0 <= h <= MAX_EXTENT,
    ;
    ScreenPoint {
        x: norm.x * w + area.left as i64 * NORM_ONE,
        y: norm.y * h + area.top as i64 * NORM_ONE,
    }
}

/// Where a place is drawn: the wrap-around offset, then the unit square, then
/// the rectangle that the map fills.
pub open spec fn project_spec(
    longitude: int,
    latitude: int,
    offset_lon: int,
    offset_lat: int,
    viewport: Rect,
) -> ScreenPoint {
    to_ui_coords_spec(to_norm_coords_spec(longitude, latitude, offset_lon, offset_lat), viewport)
}

/// Projects a place onto the screen.
pub fn project(longitude: i32, latitude: i32, offset_lon: i32, offset_lat: i32, viewport: Rect) -> (p:
    ScreenPoint)
    requires
        viewport.in_bounds(),
    ensures
        p == project_spec(
            longitude as int,
            latitude as int,
            offset_lon as int,
            offset_lat as int,
            viewport,
        ),
        p.in_reach(),
{
    to_ui_coords(to_norm_coords(longitude, latitude, offset_lon, offset_lat), viewport)
}

/// The quotient of `a` by a positive `b`, rounded towards minus infinity.
fn div_floor(a: i64, b: i64) -> (q: i64)
    requires
        b > 0,
        a > i64::MIN,
    ensures
        q == a as int / b as int,
{
    if a >= 0 {
        a / b
    } else {
        let m: i64 = -a;
        let up: i64 = m / b;
        proof {
            lemma_div_floor_negative(m as int, b as int);
        }
        if up * b == m {
            -up
        } else {
            -up - 1
        }
    }
}

proof fn lemma_div_floor_negative(m: int, b: int)
    requires
        m > 0,
        b > 0,
    ensures
        0 <= (m / b) * b <= m,
        (m / b) * b == m ==> (-m) / b == -(m / b),
        (m / b) * b != m ==> (-m) / b == -(m / b) - 1,
{
    let q = m / b;
    let r = m % b;
    assert(m == b * q + r && 0 <= r < b) by {
        vstd::arithmetic::div_mod::lemma_fundamental_div_mod(m, b);
        vstd::arithmetic::div_mod::lemma_mod_bound(m, b);
    }
    assert(q * b == b * q) by (nonlinear_arith);
    assert(0 <= q) by (nonlinear_arith)
        requires
            m == b * q + r,
            0 <= r < b,
            m > 0,
            b > 0,
    ;
    if r == 0 {
        assert(-m == b * (-q) + 0) by (nonlinear_arith)
            requires
                m == b * q + r,
                r == 0,
        ;
        vstd::arithmetic::div_mod::lemma_fundamental_div_mod_converse(-m, b, -q, 0);
    } else {
        assert(-m == b * (-q - 1) + (b - r)) by (nonlinear_arith)
            requires
                m == b * q + r,
        ;
        vstd::arithmetic::div_mod::lemma_fundamental_div_mod_converse(-m, b, -q - 1, b - r);
    }
}

/// The point of the unit square that a screen position lies over, rounded
/// down to a whole step: `x = (p.x - left) / width`, `y = (p.y - top) / height`.
pub open spec fn normalize_spec(point: ScreenPoint, area: Rect) -> NormPoint {
    NormPoint {
        x: ((point.x - area.left * NORM_ONE) / (area.width as int)) as i64,
        y: ((point.y - area.top * NORM_ONE) / (area.height as int)) as i64,
    }
}

/// Takes a screen position back to the unit square that is stretched over
/// `area`.
pub fn normalize(point: ScreenPoint, area: Rect) -> (n: NormPoint)
    requires
        point.in_reach(),
        area.viewport(),
    ensures
        n == normalize_spec(point, area),
        n.x == (point.x - area.left * NORM_ONE) / (area.width as int),
        n.y == (point.y - area.top * NORM_ONE) / (area.height as int),
{
    let dx: i64 = point.x - area.left as i64 * NORM_ONE;
    let dy: i64 = point.y - area.top as i64 * NORM_ONE;
    let w: i64 = area.width as i64;
    let h: i64 = area.height as i64;
    proof {
        lemma_quotient_bound(dx as int, w as int);
        lemma_quotient_bound(dy as int, h as int);
    }
    NormPoint { x: div_floor(dx, w), y: div_floor(dy, h) }
}

/// A quotient by a positive number lies no farther from zero than the
/// dividend does.
pub proof fn lemma_quotient_bound(a: int, b: int)
    requires
        b > 0,
    ensures
        a >= 0 ==> 0 <= a / b <= a,
        a < 0 ==> a <= a / b < 0,
{
    vstd::arithmetic::div_mod::lemma_fundamental_div_mod(a, b);
    vstd::arithmetic::div_mod::lemma_mod_bound(a, b);
    let q = a / b;
    let r = a % b;
    assert(a >= 0 ==> 0 <= q <= a) by (nonlinear_arith)
        requires
            a == b * q + r,
            0 <= r < b,
            b > 0,
    ;
    assert(a < 0 ==> a <= q < 0) by (nonlinear_arith)
        requires
            a == b * q + r,
            0 <= r < b,
            b > 0,
    ;
}

/// Placing a point of the unit square on the screen and taking the position
/// back gives the point again, whatever the rectangle.
pub proof fn lemma_normalize_inverts_to_ui_coords(norm: NormPoint, area: Rect)
    requires
        norm.in_reach(),
        area.viewport(),
    ensures
        normalize_spec(to_ui_coords_spec(norm, area), area) == norm,
{
    let p = to_ui_coords_spec(norm, area);
    let w = area.width as int;
    let h = area.height as int;
    assert(-NORM_LIMIT * MAX_EXTENT <= norm.x * w <= NORM_LIMIT * MAX_EXTENT) by (nonlinear_arith)
        requires
            -NORM_LIMIT <= norm.x <= NORM_LIMIT,
            0 <= w <= MAX_EXTENT,
    ;
    assert(-NORM_LIMIT * MAX_EXTENT <= norm.y * h <= NORM_LIMIT * MAX_EXTENT) by (nonlinear_arith)
        requires
            -NORM_LIMIT <= norm.y <= NORM_LIMIT,
            0 <= h <= MAX_EXTENT,
    ;
    assert(p.x - area.left * NORM_ONE == norm.x * w);
    assert(p.y - area.top * NORM_ONE == norm.y * h);
    vstd::arithmetic::div_mod::lemma_div_multiples_vanish(norm.x as int, w);
    vstd::arithmetic::div_mod::lemma_div_multiples_vanish(norm.y as int, h);
    assert(norm.x * w == w * norm.x) by (nonlinear_arith);
    assert(norm.y * h == h * norm.y) by (nonlinear_arith);
}

/// Projecting a place and taking the position back to the unit square gives
/// the normalised coordinates of the place, without any loss.
pub proof fn lemma_project_round_trip(
    longitude: i32,
    latitude: i32,
    offset_lon: i32,
    offset_lat: i32,
    viewport: Rect,
)
    requires
        viewport.viewport(),
    ensures
        normalize_spec(
            project_spec(
                longitude as int,
                latitude as int,
                offset_lon as int,
                offset_lat as int,
                viewport,
            ),
            viewport,
        ) == to_norm_coords_spec(
            longitude as int,
            latitude as int,
            offset_lon as int,
            offset_lat as int,
        ),
{
    let n = to_norm_coords_spec(
        longitude as int,
        latitude as int,
        offset_lon as int,
        offset_lat as int,
    );
    assert(n.in_reach());
    lemma_normalize_inverts_to_ui_coords(n, viewport);
}

/// With no offset the north-east corner of the world is drawn at the top
/// right corner of the rectangle, the south-west corner at the bottom left,
/// and the point where the equator meets the prime meridian in the middle.
pub proof fn lemma_project_corners(viewport: Rect)
    requires
        viewport.in_bounds(),
    ensures
        project_spec(HALF_TURN as int, QUARTER_TURN as int, 0, 0, viewport)
            == viewport.spec_top_right(),
        project_spec(-HALF_TURN as int, -QUARTER_TURN as int, 0, 0, viewport)
            == viewport.spec_bottom_left(),
        project_spec(0, 0, 0, 0, viewport) == viewport.spec_center(),
        to_norm_coords_spec(HALF_TURN as int, QUARTER_TURN as int, 0, 0) == (NormPoint {
            x: NORM_ONE,
            y: 0,
        }),
        to_norm_coords_spec(-HALF_TURN as int, -QUARTER_TURN as int, 0, 0) == (NormPoint {
            x: 0,
            y: NORM_ONE,
        }),
        to_norm_coords_spec(0, 0, 0, 0) == (NormPoint { x: HALF_TURN, y: HALF_TURN }),
{
    lemma_edge(viewport.left as int, viewport.width as int);
    lemma_edge(viewport.top as int, viewport.height as int);
    let north_east = to_norm_coords_spec(HALF_TURN as int, QUARTER_TURN as int, 0, 0);
    let south_west = to_norm_coords_spec(-HALF_TURN as int, -QUARTER_TURN as int, 0, 0);
    assert(north_east.x == NORM_ONE && north_east.y == 0);
    assert(south_west.x == 0 && south_west.y == NORM_ONE);
    assert(north_east.x * viewport.width == NORM_ONE * viewport.width);
    assert(north_east.y * viewport.height == 0);
    assert(south_west.x * viewport.width == 0);
    assert(south_west.y * viewport.height == NORM_ONE * viewport.height);
}

/// A place on the globe, moved by offsets of no more than a full turn and
/// half a turn, lies in the unit square, and is drawn inside the rectangle
/// that the map fills or on its edge.
pub proof fn lemma_project_stays_inside(
    longitude: int,
    latitude: int,
    offset_lon: int,
    offset_lat: int,
    viewport: Rect,
)
    requires
        -HALF_TURN <= longitude <= HALF_TURN,
        -QUARTER_TURN <= latitude <= QUARTER_TURN,
        -2 * HALF_TURN <= offset_lon <= 2 * HALF_TURN,
        -2 * QUARTER_TURN <= offset_lat <= 2 * QUARTER_TURN,
        viewport.in_bounds(),
    ensures
        0 <= to_norm_coords_spec(longitude, latitude, offset_lon, offset_lat).x <= NORM_ONE,
        0 <= to_norm_coords_spec(longitude, latitude, offset_lon, offset_lat).y <= NORM_ONE,
        viewport.spec_top_left().x <= project_spec(
            longitude,
            latitude,
            offset_lon,
            offset_lat,
            viewport,
        ).x <= viewport.spec_bottom_right().x,
        viewport.spec_top_left().y <= project_spec(
            longitude,
            latitude,
            offset_lon,
            offset_lat,
            viewport,
        ).y <= viewport.spec_bottom_right().y,
{
    let n = to_norm_coords_spec(longitude, latitude, offset_lon, offset_lat);
    let w = viewport.width as int;
    let h = viewport.height as int;
    assert(0 <= n.x <= NORM_ONE && 0 <= n.y <= NORM_ONE);
    assert(0 <= n.x * w <= NORM_ONE * w) by (nonlinear_arith)
        requires
            0 <= n.x <= NORM_ONE,
            0 <= w,
    ;
    assert(0 <= n.y * h <= NORM_ONE * h) by (nonlinear_arith)
        requires
            0 <= n.y <= NORM_ONE,
            0 <= h,
    ;
    lemma_edge(viewport.left as int, w);
    lemma_edge(viewport.top as int, h);
}

} // verus!
