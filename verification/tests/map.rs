use alumnimap::colour::Rgba;
use alumnimap::fetch::FetchedData;
use alumnimap::geo::{project, Rect, ScreenPoint, MAP_LATITUDE_OFFSET, MAP_LONGITUDE_OFFSET, NORM_ONE};
use alumnimap::list::{ListState, Stage};
use alumnimap::map::{
    contains, discard_closed, find_popup, place, remove_from_list, scaled, Frame, Hover,
    WorldMap, BASE_RADIUS, HIGHLIGHT_ICON_REACH, HIGHLIGHT_RADIUS, HIGHLIGHT_STROKE, ICON_REACH,
    LINE_WIDTH, MARKER_RADIUS, MARKER_STROKE,
};
use alumnimap::model::University;

fn map_area() -> Rect {
    Rect { left: 0, top: 0, width: 800, height: 400 }
}

fn map_university(id: i32, title: &str, longitude: i32, latitude: i32) -> University {
    University {
        id,
        title: String::from(title),
        icon: format!("{id}.png"),
        colour: String::from("#336699"),
        longitude,
        latitude,
    }
}

fn map_with_dests() -> WorldMap {
    let mut map = WorldMap::new(String::from("http://host/"));
    map.internal_area = Rect { left: 0, top: 0, width: 400, height: 200 };
    map.base.data = Some(map_university(-1, "Home", 150_000_000, 0));
    map.base.done = true;
    map.dests.data = Some(vec![
        map_university(1, "North", 150_000_000, 45_000_000),
        map_university(2, "East", 15_000_000, 0),
        map_university(3, "South", 150_000_000, -45_000_000),
    ]);
    map.dests.done = true;
    map
}

fn drawn(university: &University) -> ScreenPoint {
    project(
        university.longitude,
        university.latitude,
        MAP_LONGITUDE_OFFSET,
        MAP_LATITUDE_OFFSET,
        map_area(),
    )
}

#[test]
fn a_new_map_asks_for_base_and_destinations() {
    let map = WorldMap::new(String::from("http://host/"));
    assert_eq!(map.base, FetchedData::new(String::from("http://host/api/base")));
    assert_eq!(map.dests, FetchedData::new(String::from("http://host/api/universities")));
    assert_eq!(map.internal_area, Rect::zero());
    assert!(map.popups.is_empty());
    assert!(map.highlights.is_empty());
    assert_eq!(map.app_url, "http://host/");
}

#[test]
fn sizes_scale_with_the_part_in_view() {
    let area = map_area();
    let half = Rect { left: 0, top: 0, width: 400, height: 200 };
    assert_eq!(scaled(40, half, area), 20 * NORM_ONE as u64);
    assert_eq!(scaled(2, half, area), NORM_ONE as u64);
    assert_eq!(scaled(5, half, area), 5 * NORM_ONE as u64 / 2);
    assert_eq!(scaled(40, Rect::zero(), area), 0);
    assert_eq!(scaled(1, Rect { left: 0, top: 0, width: 1, height: 1 }, area), 900_000);
    assert_eq!(
        scaled(1, Rect { left: 0, top: 0, width: 1, height: 1 }, Rect { left: 0, top: 0, width: 7, height: 7 }),
        51_428_571
    );
}

#[test]
fn scaling_height_is_kept_within_bounds() {
    let area = map_area();
    let negative = Rect { left: 0, top: 0, width: 10, height: -5 };
    assert_eq!(scaled(40, negative, area), 0);
    let huge = Rect { left: 0, top: 0, width: 10, height: i32::MAX };
    let most = Rect { left: 0, top: 0, width: 10, height: 1_048_576 };
    assert_eq!(scaled(255, huge, area), scaled(255, most, area));
    assert_eq!(
        scaled(255, huge, Rect { left: 0, top: 0, width: 1, height: 1 }),
        255 * 360_000_000 * 1_048_576
    );
}

#[test]
fn sizes_of_the_drawing() {
    assert_eq!(
        (MARKER_RADIUS, MARKER_STROKE, ICON_REACH, HIGHLIGHT_RADIUS, HIGHLIGHT_STROKE),
        (40, 2, 40, 80, 10)
    );
    assert_eq!((HIGHLIGHT_ICON_REACH, LINE_WIDTH, BASE_RADIUS), (60, 5, 20));
}

#[test]
fn nothing_is_drawn_before_the_base_point_arrives() {
    let mut map = map_with_dests();
    map.base.data = None;
    assert_eq!(map.draw_base_and_lines(map_area()), None);
}

#[test]
fn base_point_without_destinations_has_no_lines() {
    let mut map = map_with_dests();
    map.dests.data = None;
    let drawing = map.draw_base_and_lines(map_area()).unwrap();
    assert!(drawing.lines.is_empty());
    assert_eq!(drawing.centre, ScreenPoint { x: 400 * NORM_ONE, y: 200 * NORM_ONE });
    assert_eq!(drawing.radius, 20 * NORM_ONE as u64);
    assert_eq!(drawing.colour, "#336699");
}

#[test]
fn lines_run_from_the_base_point_to_each_destination() {
    let map = map_with_dests();
    let drawing = map.draw_base_and_lines(map_area()).unwrap();
    assert_eq!(drawing.lines.len(), 3);
    let centre = ScreenPoint { x: 400 * NORM_ONE, y: 200 * NORM_ONE };
    let ends = [
        ScreenPoint { x: 400 * NORM_ONE, y: 100 * NORM_ONE },
        ScreenPoint { x: 100 * NORM_ONE, y: 200 * NORM_ONE },
        ScreenPoint { x: 400 * NORM_ONE, y: 300 * NORM_ONE },
    ];
    for (line, end) in drawing.lines.iter().zip(ends) {
        assert_eq!(line.from, centre);
        assert_eq!(line.to, end);
        assert_eq!(line.width, 5 * NORM_ONE as u64 / 2);
        assert_eq!(line.colour, "#336699");
    }
}

#[test]
fn markers_are_drawn_small_or_highlighted() {
    let mut map = map_with_dests();
    map.highlights.push(map_university(2, "East", 15_000_000, 0));
    let markers = map.draw_points(map_area());
    assert_eq!(markers.len(), 3);
    let plain = &markers[0];
    assert_eq!(plain.id, 1);
    assert_eq!(plain.position, ScreenPoint { x: 400 * NORM_ONE, y: 100 * NORM_ONE });
    assert!(!plain.highlighted);
    assert_eq!(plain.radius, 20 * NORM_ONE as u64);
    assert_eq!(plain.stroke_width, NORM_ONE as u64);
    assert_eq!(plain.stroke, Rgba::light_gray());
    assert_eq!(plain.fill, Rgba::white());
    assert_eq!(plain.icon, "http://host/static/icons/1.png");
    assert_eq!(plain.icon_min, ScreenPoint { x: 380 * NORM_ONE, y: 80 * NORM_ONE });
    assert_eq!(plain.icon_max, ScreenPoint { x: 420 * NORM_ONE, y: 120 * NORM_ONE });
    let found = &markers[1];
    assert_eq!(found.id, 2);
    assert!(found.highlighted);
    assert_eq!(found.position, ScreenPoint { x: 100 * NORM_ONE, y: 200 * NORM_ONE });
    assert_eq!(found.radius, 40 * NORM_ONE as u64);
    assert_eq!(found.stroke_width, 5 * NORM_ONE as u64);
    assert_eq!(found.stroke, Rgba::light_red());
    assert_eq!(found.fill, Rgba::white());
    assert_eq!(found.icon_min, ScreenPoint { x: 70 * NORM_ONE, y: 170 * NORM_ONE });
    assert_eq!(found.icon_max, ScreenPoint { x: 130 * NORM_ONE, y: 230 * NORM_ONE });
    assert_eq!(map.draw_point(&map_university(1, "North", 150_000_000, 45_000_000), map_area()), markers[0]);
}

#[test]
fn a_record_that_differs_in_one_field_is_not_highlighted() {
    let mut map = map_with_dests();
    map.highlights.push(map_university(2, "East!", 15_000_000, 0));
    let markers = map.draw_points(map_area());
    assert!(!markers[1].highlighted);
    assert!(!contains(&map.highlights, &map_university(2, "East", 15_000_000, 0)));
    assert!(contains(&map.highlights, &map_university(2, "East!", 15_000_000, 0)));
}

#[test]
fn no_markers_before_the_destinations_arrive() {
    let map = WorldMap::new(String::from("/"));
    assert!(map.draw_points(map_area()).is_empty());
}

#[test]
fn place_is_the_projection_with_the_map_offset() {
    let university = map_university(1, "North", 150_000_000, 45_000_000);
    assert_eq!(place(&university, map_area()), drawn(&university));
}

#[test]
fn click_on_a_marker_opens_its_list() {
    let mut map = map_with_dests();
    let pointer = ScreenPoint { x: 5, y: 6 };
    let at = drawn(&map_university(2, "East", 15_000_000, 0));
    assert!(map.check_click(at, map_area(), pointer));
    assert_eq!(map.popups.len(), 1);
    assert_eq!(
        map.popups[0],
        ListState::new(String::from("East"), 2, pointer, "http://host/")
    );
    assert_eq!(map.popups[0].inner.profiles.url, "http://host/api/profiles/2");
    assert_eq!(map.popups[0].stage(), Stage::Fetching);
}

#[test]
fn second_click_on_an_open_marker_opens_nothing() {
    let mut map = map_with_dests();
    let pointer = ScreenPoint { x: 5, y: 6 };
    let at = drawn(&map_university(2, "East", 15_000_000, 0));
    assert!(map.check_click(at, map_area(), pointer));
    let once = map.popups.len();
    assert!(!map.check_click(at, map_area(), pointer));
    assert!(!map.check_click(at, map_area(), ScreenPoint { x: 50, y: 60 }));
    assert_eq!(map.popups.len(), once);
    assert_eq!(map.popups[0].initial_pos, Some(pointer));
}

#[test]
fn several_lists_can_be_open_at_once() {
    let mut map = map_with_dests();
    let pointer = ScreenPoint { x: 0, y: 0 };
    for (id, lon, lat) in [(1, 150_000_000, 45_000_000), (3, 150_000_000, -45_000_000), (2, 15_000_000, 0)] {
        let at = drawn(&map_university(id, "", lon, lat));
        assert!(map.check_click(at, map_area(), pointer));
    }
    let ids: Vec<i32> = map.popups.iter().map(|p| p.inner.uni_id).collect();
    assert_eq!(ids, vec![1, 3, 2]);
}

#[test]
fn click_beside_the_markers_opens_nothing() {
    let mut map = map_with_dests();
    let beside = ScreenPoint { x: 700 * NORM_ONE, y: 50 * NORM_ONE };
    assert!(!map.check_click(beside, map_area(), beside));
    assert!(map.popups.is_empty());
}

#[test]
fn click_reaches_as_far_as_the_marker_is_drawn() {
    let mut map = map_with_dests();
    let at = drawn(&map_university(1, "North", 150_000_000, 45_000_000));
    // the disc is twenty pixels in radius while half of the map is in view
    let on_the_rim = ScreenPoint { x: at.x, y: at.y - 20 * NORM_ONE };
    assert!(!map.check_click(on_the_rim, map_area(), at));
    let inside = ScreenPoint { x: at.x, y: at.y - 20 * NORM_ONE + 400 };
    assert!(map.check_click(inside, map_area(), at));
}

#[test]
fn click_before_the_destinations_arrive_opens_nothing() {
    let mut map = WorldMap::new(String::from("/"));
    map.internal_area = map_area();
    let at = ScreenPoint { x: 400 * NORM_ONE, y: 200 * NORM_ONE };
    assert!(!map.check_click(at, map_area(), at));
    assert!(map.popups.is_empty());
}

#[test]
fn closing_discards_that_list_and_no_other() {
    let mut map = map_with_dests();
    let pointer = ScreenPoint { x: 0, y: 0 };
    for (id, lon, lat) in [(1, 150_000_000, 45_000_000), (2, 15_000_000, 0), (3, 150_000_000, -45_000_000)] {
        let at = drawn(&map_university(id, "", lon, lat));
        assert!(map.check_click(at, map_area(), pointer));
    }
    map.popups[1].dismiss();
    assert_eq!(map.popups[1].stage(), Stage::Closed);
    map.close_dismissed();
    let ids: Vec<i32> = map.popups.iter().map(|p| p.inner.uni_id).collect();
    assert_eq!(ids, vec![1, 3]);
    map.close_dismissed();
    assert_eq!(map.popups.len(), 2);
    assert!(find_popup(&map.popups, 1));
    assert!(!find_popup(&map.popups, 2));
}

#[test]
fn a_closed_list_can_be_opened_afresh() {
    let mut map = map_with_dests();
    let at = drawn(&map_university(2, "East", 15_000_000, 0));
    assert!(map.check_click(at, map_area(), at));
    map.popups[0].inner.profiles.data = Some(Vec::new());
    map.popups[0].inner.profiles.done = true;
    map.popups[0].dismiss();
    map.close_dismissed();
    assert!(map.popups.is_empty());
    let elsewhere = ScreenPoint { x: 9, y: 9 };
    assert!(map.check_click(at, map_area(), elsewhere));
    assert_eq!(map.popups.len(), 1);
    assert_eq!(map.popups[0].initial_pos, Some(elsewhere));
    assert_eq!(map.popups[0].inner.profiles.data, None);
    assert!(!map.popups[0].inner.profiles.done);
}

#[test]
fn discard_closed_keeps_the_order() {
    let p = ScreenPoint { x: 0, y: 0 };
    let mut popups: Vec<ListState> = (0..6)
        .map(|id| ListState::new(format!("T{id}"), id, p, "/"))
        .collect();
    popups[0].open = false;
    popups[1].open = false;
    popups[4].open = false;
    discard_closed(&mut popups);
    let ids: Vec<i32> = popups.iter().map(|p| p.inner.uni_id).collect();
    assert_eq!(ids, vec![2, 3, 5]);
    let mut none: Vec<ListState> = Vec::new();
    discard_closed(&mut none);
    assert!(none.is_empty());
}

#[test]
fn hover_brings_up_titles_and_ends_the_highlight() {
    let mut map = map_with_dests();
    map.highlights.push(map_university(1, "North", 150_000_000, 45_000_000));
    map.highlights.push(map_university(2, "East", 15_000_000, 0));
    map.highlights.push(map_university(1, "North", 150_000_000, 45_000_000));
    let at = drawn(&map_university(1, "North", 150_000_000, 45_000_000));
    let hover = map.check_hover(at, map_area());
    assert_eq!(hover, Hover { base: None, marker: Some(String::from("North")) });
    assert_eq!(map.highlights, vec![map_university(2, "East", 15_000_000, 0)]);
}

#[test]
fn hover_over_the_base_point_shows_its_title() {
    let mut map = map_with_dests();
    let at = ScreenPoint { x: 400 * NORM_ONE, y: 200 * NORM_ONE + 9 * NORM_ONE };
    let hover = map.check_hover(at, map_area());
    assert_eq!(hover, Hover { base: Some(String::from("Home")), marker: None });
    let off = ScreenPoint { x: 400 * NORM_ONE, y: 200 * NORM_ONE + 10 * NORM_ONE };
    assert_eq!(map.check_hover(off, map_area()), Hover { base: None, marker: None });
}

#[test]
fn hover_over_nothing_changes_nothing() {
    let mut map = map_with_dests();
    map.highlights.push(map_university(2, "East", 15_000_000, 0));
    let hover = map.check_hover(ScreenPoint { x: 700 * NORM_ONE, y: 30 * NORM_ONE }, map_area());
    assert_eq!(hover, Hover { base: None, marker: None });
    assert_eq!(map.highlights.len(), 1);
}

#[test]
fn remove_from_list_takes_out_every_copy() {
    let a = map_university(1, "A", 0, 0);
    let b = map_university(2, "B", 0, 0);
    let mut list = vec![a.clone(), a.clone(), b.clone(), a.clone(), b.clone(), a.clone()];
    remove_from_list(&mut list, &a);
    assert_eq!(list, vec![b.clone(), b.clone()]);
    remove_from_list(&mut list, &a);
    assert_eq!(list.len(), 2);
    remove_from_list(&mut list, &b);
    assert!(list.is_empty());
    remove_from_list(&mut list, &b);
    assert!(list.is_empty());
}

#[test]
fn a_frame_draws_then_handles_the_pointer_then_polls() {
    let mut map = map_with_dests();
    map.highlights.push(map_university(3, "South", 150_000_000, -45_000_000));
    let on_south = drawn(&map_university(3, "South", 150_000_000, -45_000_000));
    let pointer = ScreenPoint { x: 1, y: 2 };
    let new_view = Rect { left: 3, top: 4, width: 800, height: 400 };
    let scene = map.render(Frame {
        area: map_area(),
        click: Some(on_south),
        hover: Some(on_south),
        pointer,
        internal_area: new_view,
        base: None,
        dests: None,
    });
    assert!(scene.opened);
    assert!(!scene.repaint);
    assert_eq!(scene.hover, Hover { base: None, marker: Some(String::from("South")) });
    assert_eq!(scene.markers.len(), 3);
    assert!(scene.markers[2].highlighted);
    assert_eq!(scene.markers[2].radius, 40 * NORM_ONE as u64);
    assert_eq!(scene.base.unwrap().lines.len(), 3);
    assert!(map.highlights.is_empty());
    assert_eq!(map.popups.len(), 1);
    assert_eq!(map.popups[0].inner.uni_id, 3);
    assert_eq!(map.popups[0].initial_pos, Some(pointer));
    assert_eq!(map.internal_area, new_view);
    let next = map.render(Frame {
        area: map_area(),
        click: None,
        hover: None,
        pointer,
        internal_area: new_view,
        base: None,
        dests: None,
    });
    assert!(!next.opened);
    assert!(!next.markers[2].highlighted);
    assert_eq!(next.markers[2].radius, 40 * NORM_ONE as u64);
    assert_eq!(next.hover, Hover { base: None, marker: None });
}

#[test]
fn a_frame_takes_in_what_has_arrived() {
    let mut map = WorldMap::new(String::from("/"));
    let frame = Frame {
        area: map_area(),
        click: None,
        hover: None,
        pointer: ScreenPoint { x: 0, y: 0 },
        internal_area: map_area(),
        base: Some(Ok(Some(map_university(-1, "Home", 0, 0)))),
        dests: Some(Err(String::from("timeout"))),
    };
    let scene = map.render(frame);
    assert!(scene.repaint);
    assert_eq!(scene.base, None);
    assert!(scene.markers.is_empty());
    assert!(map.base.done && map.dests.done);
    assert_eq!(map.base.data, Some(map_university(-1, "Home", 0, 0)));
    assert_eq!(map.dests.data, None);
}

#[test]
fn a_frame_on_an_empty_rectangle_draws_nothing() {
    let mut map = map_with_dests();
    let at = drawn(&map_university(2, "East", 15_000_000, 0));
    let scene = map.render(Frame {
        area: Rect::zero(),
        click: Some(at),
        hover: Some(at),
        pointer: at,
        internal_area: Rect::zero(),
        base: None,
        dests: None,
    });
    assert_eq!(scene.base, None);
    assert!(scene.markers.is_empty());
    assert!(!scene.opened);
    assert_eq!(scene.hover, Hover { base: None, marker: None });
    assert!(map.popups.is_empty());
}

#[test]
fn a_click_out_of_reach_is_no_click() {
    let mut map = map_with_dests();
    let scene = map.render(Frame {
        area: map_area(),
        click: Some(ScreenPoint { x: i64::MAX, y: i64::MIN }),
        hover: Some(ScreenPoint { x: i64::MIN, y: i64::MAX }),
        pointer: ScreenPoint { x: 0, y: 0 },
        internal_area: Rect { left: 0, top: 0, width: 10, height: i32::MAX },
        base: None,
        dests: None,
    });
    assert!(!scene.opened);
    assert_eq!(scene.hover, Hover { base: None, marker: None });
    assert_eq!(scene.markers.len(), 3);
}
