//! Which marker a pointer is on.
//!
//! A pointer is on a marker when its distance from the marker, measured in
//! the unit square, is less than the radius divided by the height of the
//! rectangle that the map fills. Both sides are compared exactly, as
//! fractions.

use crate::geo::{
    normalize, normalize_spec, to_norm_coords, to_norm_coords_spec, to_ui_coords_spec, NormPoint,
    Rect, ScreenPoint, MAP_LATITUDE_OFFSET, MAP_LONGITUDE_OFFSET, MAX_EXTENT, NORM_LIMIT, NORM_ONE,
};
use crate::model::University;
use vstd::prelude::*;

verus! {

/// The square of the distance between two points of the unit square, in
/// squared steps.
pub open spec fn dist2(a: NormPoint, b: NormPoint) -> int {
    (a.x - b.x) * (a.x - b.x) + (a.y - b.y) * (a.y - b.y)
}

/// Whether `a` lies nearer to `b` than `radius / height`, where the radius
/// is counted in steps of a pixel and the height in pixels.
pub open spec fn within_radius(a: NormPoint, b: NormPoint, height: int, radius: int) -> bool {
    dist2(a, b) * (height * height) < radius * radius
}

/// Where the marker of a university lies in the unit square of the map
/// image.
pub open spec fn marker_norm_spec(university: University) -> NormPoint {
    to_norm_coords_spec(
        university.longitude as int,
        university.latitude as int,
        MAP_LONGITUDE_OFFSET as int,
        MAP_LATITUDE_OFFSET as int,
    )
}

/// Where the marker of a university lies in the unit square of the map image.
pub fn marker_norm(university: &University) -> (n: NormPoint)
    ensures
        n == marker_norm_spec(*university),
        n.in_reach(),
{
    to_norm_coords(
        university.longitude,
        university.latitude,
        MAP_LONGITUDE_OFFSET,
        MAP_LATITUDE_OFFSET,
    )
}

/// Whether a pointer at `point` is on the marker of `university`, drawn with
/// the given radius on a map that fills `viewport`.
pub open spec fn hits(point: ScreenPoint, university: University, viewport: Rect, radius: int) -> bool {
    within_radius(
        normalize_spec(point, viewport),
        marker_norm_spec(university),
        viewport.height as int,
        radius,
    )
}

/// The squared distance, in the unit square, of a pointer from the marker of
/// `university`.
pub open spec fn gap2(point: ScreenPoint, university: University, viewport: Rect) -> int {
    dist2(normalize_spec(point, viewport), marker_norm_spec(university))
}

/// Marker `k` is hit, no marker that is hit lies nearer, and of those that
/// lie as near none comes before it.
pub open spec fn is_nearest(
    point: ScreenPoint,
    markers: Seq<University>,
    viewport: Rect,
    radius: int,
    k: int,
) -> bool {
    &&& 0 <= k < markers.len()
    &&& hits(point, markers[k], viewport, radius)
    &&& forall|j: int|
        0 <= j < markers.len() && #[trigger] hits(point, markers[j], viewport, radius) ==> gap2(
            point,
            markers[k],
            viewport,
        ) <= gap2(point, markers[j], viewport)
    &&& forall|j: int|
        0 <= j < k && #[trigger] hits(point, markers[j], viewport, radius) ==> gap2(
            point,
            markers[k],
            viewport,
        ) < gap2(point, markers[j], viewport)
}

/// No marker is hit.
pub open spec fn none_hit(
    point: ScreenPoint,
    markers: Seq<University>,
    viewport: Rect,
    radius: int,
) -> bool {
    forall|j: int| 0 <= j < markers.len() ==> !#[trigger] hits(point, markers[j], viewport, radius)
}

/// How far apart two coordinates are.
fn span(a: i64, b: i64) -> (d: u64)
    requires
        -0x4000_0000_0000_0000 <= a <= 0x4000_0000_0000_0000,
        -NORM_LIMIT <= b <= NORM_LIMIT,
    ensures
        d == if a >= b {
            a - b
        } else {
            b - a
        },
        d * d == (a - b) * (a - b),
{
    proof {
        assert((b - a) * (b - a) == (a - b) * (a - b)) by (nonlinear_arith);
    }
    if a >= b {
        (a - b) as u64
    } else {
        (b - a) as u64
    }
}

proof fn lemma_square_order(a: int, r: int)
    requires
        0 <= a,
        0 <= r,
    ensures
        a >= r ==> a * a >= r * r,
        a < r ==> a * a < r * r,
        a < r ==> a * a <= (r - 1) * (r - 1),
{
    assert(a >= r ==> a * a >= r * r) by (nonlinear_arith)
        requires
            0 <= a,
            0 <= r,
    ;
    assert(a < r ==> a * a < r * r) by (nonlinear_arith)
        requires
            0 <= a,
            0 <= r,
    ;
    assert(a < r ==> a * a <= (r - 1) * (r - 1)) by (nonlinear_arith)
        requires
            0 <= a,
            0 <= r,
    ;
}

proof fn lemma_sum_scaled(dx: int, dy: int, h: int)
    ensures
        (dx * dx + dy * dy) * (h * h) == (dx * h) * (dx * h) + (dy * h) * (dy * h),
{
    assert((dx * dx + dy * dy) * (h * h) == (dx * h) * (dx * h) + (dy * h) * (dy * h))
        by (nonlinear_arith);
}

proof fn lemma_product_bound(d: int, h: int)
    requires
        0 <= d <= 0x8000_0000_0000_0000,
        1 <= h <= MAX_EXTENT,
    ensures
        d <= d * h <= 0x8000_0000_0000_0000 * MAX_EXTENT,
        d * d <= (d * h) * (d * h),
{
    assert(d <= d * h <= 0x8000_0000_0000_0000 * MAX_EXTENT) by (nonlinear_arith)
        requires
            0 <= d <= 0x8000_0000_0000_0000,
            1 <= h <= MAX_EXTENT,
    ;
    assert(d * d <= (d * h) * (d * h)) by (nonlinear_arith)
        requires
            0 <= d <= d * h,
    ;
}

/// Tests whether a pointer at `point` is on a marker that lies at `marker` in
/// the unit square, and if so gives the squared distance between the two.
pub fn reach(point: ScreenPoint, marker: NormPoint, viewport: Rect, radius: u64) -> (r: Option<u128>)
    requires
        point.in_reach(),
        marker.in_reach(),
        viewport.viewport(),
    ensures
        r is Some <==> within_radius(
            normalize_spec(point, viewport),
            marker,
            viewport.height as int,
            radius as int,
        ),
        r is Some ==> r->0 == dist2(normalize_spec(point, viewport), marker),
{
    let n: NormPoint = normalize(point, viewport);
    proof {
        lemma_normalized_bound(point, viewport);
    }
    let dx: u64 = span(n.x, marker.x);
    let dy: u64 = span(n.y, marker.y);
    let h: u128 = viewport.height as u128;
    proof {
        lemma_product_bound(dx as int, h as int);
        lemma_product_bound(dy as int, h as int);
        lemma_sum_scaled(dx as int, dy as int, h as int);
    }
    let a: u128 = dx as u128 * h;
    let b: u128 = dy as u128 * h;
    let r: u128 = radius as u128;
    proof {
        lemma_square_order(a as int, r as int);
        lemma_square_order(b as int, r as int);
        assert(r * r <= 0xffff_ffff_ffff_ffff * 0xffff_ffff_ffff_ffff) by (nonlinear_arith)
            requires
                0 <= r <= 0xffff_ffff_ffff_ffff,
        ;
        assert(0 <= a * a) by (nonlinear_arith);
        assert(0 <= b * b) by (nonlinear_arith);
    }
    if a >= r || b >= r {
        return None;
    }
    let a2: u128 = a * a;
    let b2: u128 = b * b;
    let r2: u128 = r * r;
    if a2 < r2 - b2 {
        proof {
            assert(0 <= dx * dx) by (nonlinear_arith);
            assert(0 <= dy * dy) by (nonlinear_arith);
        }
        let dx2: u128 = dx as u128 * dx as u128;
        let dy2: u128 = dy as u128 * dy as u128;
        Some(dx2 + dy2)
    } else {
        None
    }
}

/// A position that is in reach of the screen lies, taken back to the unit
/// square, well inside the range of the coordinates.
proof fn lemma_normalized_bound(point: ScreenPoint, viewport: Rect)
    requires
        point.in_reach(),
        viewport.viewport(),
    ensures
        -0x4000_0000_0000_0000 <= normalize_spec(point, viewport).x <= 0x4000_0000_0000_0000,
        -0x4000_0000_0000_0000 <= normalize_spec(point, viewport).y <= 0x4000_0000_0000_0000,
{
    crate::geo::lemma_quotient_bound(
        point.x - viewport.left * NORM_ONE,
        viewport.width as int,
    );
    crate::geo::lemma_quotient_bound(
        point.y - viewport.top * NORM_ONE,
        viewport.height as int,
    );
}

/// The marker that a pointer at `point` is on: of the markers within the
/// radius the nearest, and of several that are equally near the first. The
/// result is the marker's place in `markers`.
pub fn nearest_marker(point: ScreenPoint, markers: &Vec<University>, viewport: Rect, radius: u64) -> (r:
    Option<usize>)
    requires
        point.in_reach(),
        viewport.viewport(),
    ensures
        match r {
            Some(k) => is_nearest(point, markers@, viewport, radius as int, k as int),
            None => none_hit(point, markers@, viewport, radius as int),
        },
{
    let mut best: Option<usize> = None;
    let mut best_gap: u128 = 0;
    let mut i: usize = 0;
    while i < markers.len()
        invariant
            i <= markers.len(),
            point.in_reach(),
            viewport.viewport(),
            match best {
                Some(k) => {
                    &&& is_nearest(
                        point,
                        markers@.subrange(0, i as int),
                        viewport,
                        radius as int,
                        k as int,
                    )
                    &&& best_gap == gap2(point, markers@[k as int], viewport)
                },
                None => none_hit(point, markers@.subrange(0, i as int), viewport, radius as int),
            },
        decreases markers.len() - i,
    {
        let ghost seen = markers@.subrange(0, i as int);
        let ghost next = markers@.subrange(0, i + 1);
        let marker: NormPoint = marker_norm(&markers[i]);
        let found: Option<u128> = reach(point, marker, viewport, radius);
        proof {
            assert(next[i as int] == markers@[i as int]);
            assert(forall|j: int| 0 <= j < i ==> next[j] == #[trigger] seen[j]);
        }
        match found {
            Some(gap) => {
                let nearer: bool = match best {
                    Some(_) => gap < best_gap,
                    None => true,
                };
                if nearer {
                    best = Some(i);
                    best_gap = gap;
                }
            },
            None => {},
        }
        i += 1;
    }
    proof {
        assert(markers@.subrange(0, i as int) == markers@);
    }
    best
}

/// The identity of the marker that a pointer at `point` is on, if it is on
/// any: see `nearest_marker`.
pub fn find_nearest(point: ScreenPoint, markers: &Vec<University>, viewport: Rect, radius: u64) -> (r:
    Option<i32>)
    requires
        point.in_reach(),
        viewport.viewport(),
    ensures
        r is None <==> none_hit(point, markers@, viewport, radius as int),
        r is Some ==> exists|k: int|
            is_nearest(point, markers@, viewport, radius as int, k) && r->0 == markers@[k].id,
{
    match nearest_marker(point, markers, viewport, radius) {
        Some(k) => {
            proof {
                assert(hits(point, markers@[k as int], viewport, radius as int));
            }
            Some(markers[k].id)
        },
        None => None,
    }
}

/// Where the marker of a university is drawn on a map that fills `viewport`.
pub open spec fn marker_position(university: University, viewport: Rect) -> ScreenPoint {
    to_ui_coords_spec(marker_norm_spec(university), viewport)
}

/// At most one marker is the nearest.
pub proof fn lemma_nearest_is_unique(
    point: ScreenPoint,
    markers: Seq<University>,
    viewport: Rect,
    radius: int,
    k: int,
    l: int,
)
    requires
        is_nearest(point, markers, viewport, radius, k),
        is_nearest(point, markers, viewport, radius, l),
    ensures
        k == l,
{
}

/// A pointer exactly where a marker is drawn is on that marker, however small
/// the radius, as long as it is not zero; so a marker is found there, and the
/// one that is found is drawn at the same place.
pub proof fn lemma_marker_position_hits(
    markers: Seq<University>,
    k: int,
    viewport: Rect,
    radius: int,
)
    requires
        0 <= k < markers.len(),
        viewport.viewport(),
        radius > 0,
    ensures
        hits(marker_position(markers[k], viewport), markers[k], viewport, radius),
        gap2(marker_position(markers[k], viewport), markers[k], viewport) == 0,
        !none_hit(marker_position(markers[k], viewport), markers, viewport, radius),
        exists|l: int|
            is_nearest(marker_position(markers[k], viewport), markers, viewport, radius, l)
                && gap2(marker_position(markers[k], viewport), markers[l], viewport) == 0,
{
    let point = marker_position(markers[k], viewport);
    lemma_marker_at_its_position(markers[k], viewport, radius);
    let l = lemma_some_marker_is_nearest(point, markers, viewport, radius, k);
    lemma_dist2_is_not_negative(normalize_spec(point, viewport), marker_norm_spec(markers[l]));
}

proof fn lemma_dist2_is_not_negative(a: NormPoint, b: NormPoint)
    ensures
        dist2(a, b) >= 0,
{
    let dx = a.x - b.x;
    let dy = a.y - b.y;
    assert(dx * dx + dy * dy >= 0) by (nonlinear_arith);
}

proof fn lemma_marker_at_its_position(university: University, viewport: Rect, radius: int)
    requires
        viewport.viewport(),
        radius > 0,
    ensures
        hits(marker_position(university, viewport), university, viewport, radius),
        gap2(marker_position(university, viewport), university, viewport) == 0,
{
    let m = marker_norm_spec(university);
    crate::geo::lemma_normalize_inverts_to_ui_coords(m, viewport);
    assert(dist2(m, m) == 0) by (nonlinear_arith);
    assert(0 < radius * radius) by (nonlinear_arith)
        requires
            radius > 0,
    ;
    assert(dist2(m, m) * (viewport.height * viewport.height) == 0) by (nonlinear_arith)
        requires
            dist2(m, m) == 0,
    ;
}

/// A pointer whose distance from a marker, in the unit square, is the radius
/// divided by the height or more, is not on that marker; and the marker that
/// is found for a pointer is never one that lies so far from it.
pub proof fn lemma_beyond_radius_misses(
    point: ScreenPoint,
    markers: Seq<University>,
    k: int,
    viewport: Rect,
    radius: int,
)
    requires
        0 <= k < markers.len(),
        gap2(point, markers[k], viewport) * (viewport.height * viewport.height) >= radius * radius,
    ensures
        !hits(point, markers[k], viewport, radius),
        !is_nearest(point, markers, viewport, radius, k),
{
}

/// Where some marker is hit, one of the markers is the nearest.
pub proof fn lemma_some_marker_is_nearest(
    point: ScreenPoint,
    markers: Seq<University>,
    viewport: Rect,
    radius: int,
    j: int,
) -> (k: int)
    requires
        0 <= j < markers.len(),
        hits(point, markers[j], viewport, radius),
    ensures
        is_nearest(point, markers, viewport, radius, k),
    decreases markers.len(),
{
    let rest = markers.drop_last();
    let last = markers.len() - 1;
    if exists|i: int| 0 <= i < rest.len() && #[trigger] hits(point, rest[i], viewport, radius) {
        let i = choose|i: int| 0 <= i < rest.len() && #[trigger] hits(point, rest[i], viewport, radius);
        let best = lemma_some_marker_is_nearest(point, rest, viewport, radius, i);
        assert(rest[best] == markers[best]);
        assert forall|l: int| 0 <= l < rest.len() implies rest[l] == markers[l] by {}
        if hits(point, markers[last], viewport, radius) && gap2(point, markers[last], viewport)
            < gap2(point, markers[best], viewport) {
            assert forall|l: int|
                0 <= l < markers.len() && #[trigger] hits(
                    point,
                    markers[l],
                    viewport,
                    radius,
                ) implies gap2(point, markers[last], viewport) <= gap2(
                point,
                markers[l],
                viewport,
            ) by {
                if l < last {
                    assert(hits(point, rest[l], viewport, radius));
                }
            }
            assert forall|l: int|
                0 <= l < last && #[trigger] hits(point, markers[l], viewport, radius) implies gap2(
                point,
                markers[last],
                viewport,
            ) < gap2(point, markers[l], viewport) by {
                assert(hits(point, rest[l], viewport, radius));
            }
            last
        } else {
            assert forall|l: int|
                0 <= l < markers.len() && #[trigger] hits(
                    point,
                    markers[l],
                    viewport,
                    radius,
                ) implies gap2(point, markers[best], viewport) <= gap2(
                point,
                markers[l],
                viewport,
            ) by {
                if l < last {
                    assert(hits(point, rest[l], viewport, radius));
                }
            }
            assert forall|l: int|
                0 <= l < best && #[trigger] hits(point, markers[l], viewport, radius) implies gap2(
                point,
                markers[best],
                viewport,
            ) < gap2(point, markers[l], viewport) by {
                assert(hits(point, rest[l], viewport, radius));
            }
            best
        }
    } else {
        assert(j == last) by {
            if j < last {
                assert(rest[j] == markers[j]);
                assert(hits(point, rest[j], viewport, radius));
            }
        }
        assert forall|l: int|
            0 <= l < markers.len() && #[trigger] hits(
                point,
                markers[l],
                viewport,
                radius,
            ) implies l == last by {
            if l < last {
                assert(rest[l] == markers[l]);
                assert(hits(point, rest[l], viewport, radius));
            }
        }
        last
    }
}

} // verus!
