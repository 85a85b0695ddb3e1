use alumnimap::geo::{project, Rect, ScreenPoint, MAP_LATITUDE_OFFSET, MAP_LONGITUDE_OFFSET, NORM_ONE};
use alumnimap::hit::{find_nearest, marker_norm, nearest_marker, reach};
use alumnimap::model::University;

fn hit_viewport() -> Rect {
    Rect { left: 0, top: 0, width: 800, height: 400 }
}

fn hit_university(id: i32, longitude: i32, latitude: i32) -> University {
    University {
        id,
        title: format!("U{id}"),
        icon: String::new(),
        colour: String::from("#ffffff"),
        longitude,
        latitude,
    }
}

fn drawn_at(university: &University, viewport: Rect) -> ScreenPoint {
    project(
        university.longitude,
        university.latitude,
        MAP_LONGITUDE_OFFSET,
        MAP_LATITUDE_OFFSET,
        viewport,
    )
}

#[test]
fn pointer_on_the_marker_hits_with_the_smallest_radius() {
    let viewport = hit_viewport();
    let markers = vec![
        hit_university(1, 116_407_396, 39_904_211),
        hit_university(2, -74_005_974, 40_712_776),
        hit_university(3, 151_209_296, -33_868_820),
    ];
    for (k, marker) in markers.iter().enumerate() {
        let point = drawn_at(marker, viewport);
        assert_eq!(nearest_marker(point, &markers, viewport, 1), Some(k));
        assert_eq!(find_nearest(point, &markers, viewport, 1), Some(marker.id));
        assert_eq!(reach(point, marker_norm(marker), viewport, 1), Some(0));
    }
}

#[test]
fn pointer_on_the_marker_hits_in_odd_rectangles() {
    let viewports = [
        Rect { left: -3, top: 9, width: 1, height: 1000 },
        Rect { left: 7, top: -2, width: 4001, height: 1999 },
        Rect { left: 0, top: 0, width: 1, height: 1 },
    ];
    let marker = hit_university(5, 2_352_222, 48_856_614);
    let markers = vec![hit_university(4, 0, 0), hit_university(5, 2_352_222, 48_856_614)];
    for viewport in viewports {
        let point = drawn_at(&marker, viewport);
        assert_eq!(find_nearest(point, &markers, viewport, 1), Some(5));
    }
}

#[test]
fn radius_zero_hits_nothing() {
    let viewport = hit_viewport();
    let markers = vec![hit_university(1, 0, 0)];
    let point = drawn_at(&markers[0], viewport);
    assert_eq!(find_nearest(point, &markers, viewport, 0), None);
    assert_eq!(reach(point, marker_norm(&markers[0]), viewport, 0), None);
}

#[test]
fn pointer_at_the_radius_misses_and_just_inside_hits() {
    let viewport = hit_viewport();
    let marker = hit_university(1, 150_000_000, 0);
    let markers = vec![hit_university(1, 150_000_000, 0)];
    let at = drawn_at(&marker, viewport);
    assert_eq!(at, ScreenPoint { x: 400 * NORM_ONE, y: 200 * NORM_ONE });
    // ten pixels below the marker: a normalised distance of 10 / 400
    let below = ScreenPoint { x: at.x, y: at.y + 10 * NORM_ONE };
    let radius = 10 * NORM_ONE as u64;
    assert_eq!(find_nearest(below, &markers, viewport, radius), None);
    assert_eq!(find_nearest(below, &markers, viewport, radius + 1), Some(1));
    assert_eq!(
        reach(below, marker_norm(&marker), viewport, radius + 1),
        Some(9_000_000u128 * 9_000_000u128)
    );
}

#[test]
fn distance_across_is_measured_by_the_width() {
    let viewport = hit_viewport();
    let marker = hit_university(1, 150_000_000, 0);
    let markers = vec![hit_university(1, 150_000_000, 0)];
    let at = drawn_at(&marker, viewport);
    // twenty pixels to the right are 20 / 800 of the width, as far as ten pixels down
    let right = ScreenPoint { x: at.x + 20 * NORM_ONE, y: at.y };
    let radius = 10 * NORM_ONE as u64;
    assert_eq!(find_nearest(right, &markers, viewport, radius), None);
    assert_eq!(find_nearest(right, &markers, viewport, radius + 1), Some(1));
}

#[test]
fn pointer_far_away_hits_nothing() {
    let viewport = hit_viewport();
    let markers = vec![hit_university(1, 0, 0), hit_university(2, 10_000_000, 10_000_000)];
    let far = ScreenPoint { x: 790 * NORM_ONE, y: 390 * NORM_ONE };
    assert_eq!(find_nearest(far, &markers, viewport, 40 * NORM_ONE as u64), None);
    let outside = ScreenPoint { x: -(1i64 << 61), y: 1i64 << 61 };
    assert_eq!(find_nearest(outside, &markers, viewport, 1_000_000 * NORM_ONE as u64), None);
    assert_eq!(find_nearest(outside, &markers, viewport, u64::MAX), Some(1));
}

#[test]
fn the_nearer_of_two_markers_is_found() {
    let viewport = hit_viewport();
    let markers = vec![
        hit_university(1, 150_000_000, 0),
        hit_university(2, 151_000_000, 0),
        hit_university(3, 149_000_000, 1_000_000),
    ];
    let radius = 40 * NORM_ONE as u64;
    let near_second = drawn_at(&hit_university(9, 150_900_000, 0), viewport);
    assert_eq!(nearest_marker(near_second, &markers, viewport, radius), Some(1));
    assert_eq!(find_nearest(near_second, &markers, viewport, radius), Some(2));
    let near_first = drawn_at(&hit_university(9, 150_100_000, 0), viewport);
    assert_eq!(find_nearest(near_first, &markers, viewport, radius), Some(1));
}

#[test]
fn of_markers_equally_near_the_first_is_found() {
    let viewport = hit_viewport();
    let markers = vec![
        hit_university(7, 151_000_000, 0),
        hit_university(8, 149_000_000, 0),
        hit_university(9, 151_000_000, 0),
    ];
    let middle = drawn_at(&hit_university(0, 150_000_000, 0), viewport);
    let radius = 40 * NORM_ONE as u64;
    assert_eq!(nearest_marker(middle, &markers, viewport, radius), Some(0));
    assert_eq!(find_nearest(middle, &markers, viewport, radius), Some(7));
    let on_third = drawn_at(&markers[2], viewport);
    assert_eq!(nearest_marker(on_third, &markers, viewport, radius), Some(0));
}

#[test]
fn no_markers_no_hit() {
    let markers: Vec<University> = Vec::new();
    assert_eq!(
        find_nearest(ScreenPoint { x: 0, y: 0 }, &markers, hit_viewport(), u64::MAX),
        None
    );
}

#[test]
fn the_largest_radius_does_not_overflow() {
    let viewport = Rect { left: 0, top: 0, width: 1, height: 1_048_576 };
    let markers = vec![hit_university(1, -150_000_000, 0)];
    let point = ScreenPoint { x: 1i64 << 40, y: 1i64 << 40 };
    assert_eq!(find_nearest(point, &markers, viewport, u64::MAX), Some(1));
}
