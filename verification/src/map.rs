//! The world map: the base point, the destinations and the lines between
//! them, the markers, and the lists that pop up when a marker is clicked.

use crate::colour::Rgba;
use crate::fetch::{Arrival, FetchedData};
use crate::geo::{to_ui_coords, Rect, ScreenPoint, MAX_EXTENT, NORM_ONE};
use crate::hit::{hits, is_nearest, marker_norm, marker_position, nearest_marker, none_hit, reach};
use crate::list::{profiles_url_spec, ListState};
use crate::model::{University, UniversityView};
use crate::text::{join2, join3};
use vstd::prelude::*;

verus! {

/// The radius of the disc of a marker, in pixels, when the map is shown at
/// its own size.
pub const MARKER_RADIUS: u8 = 40;

/// The width of the rim of a marker.
pub const MARKER_STROKE: u8 = 2;

/// Half the side of the square that the icon of a marker fills.
pub const ICON_REACH: u8 = 40;

/// The radius of the disc of a marker that a search has found.
pub const HIGHLIGHT_RADIUS: u8 = 80;

/// The width of the rim of a marker that a search has found.
pub const HIGHLIGHT_STROKE: u8 = 10;

/// Half the side of the square that the icon of such a marker fills.
pub const HIGHLIGHT_ICON_REACH: u8 = 60;

/// The width of the line from the base point to a destination.
pub const LINE_WIDTH: u8 = 5;

/// The radius of the disc of the base point, which is drawn at one size.
pub const BASE_RADIUS: u8 = 20;

/// The height that sizes are scaled by: the height of the part of the map
/// that is in view, where that lies between nothing and `MAX_EXTENT`.
pub open spec fn scale_height(internal_area: Rect) -> int {
    if internal_area.height < 0 {
        0
    } else if internal_area.height > MAX_EXTENT {
        MAX_EXTENT as int
    } else {
        internal_area.height as int
    }
}

/// A size of `base` pixels on the map as it is shown: `base` times the
/// height in view, divided by the height of the whole map, in steps of a
/// pixel and rounded down.
pub open spec fn scaled_spec(base: int, internal_area: Rect, area: Rect) -> int {
    base * NORM_ONE * scale_height(internal_area) / (area.height as int)
}

/// Scales a size to the part of the map that is in view.
pub fn scaled(base: u8, internal_area: Rect, area: Rect) -> (r: u64)
    requires
        area.viewport(),
    ensures
        r == scaled_spec(base as int, internal_area, area),
        r <= 255 * NORM_ONE * MAX_EXTENT,
{
    let height: u64 = if internal_area.height < 0 {
        0
    } else if internal_area.height > MAX_EXTENT {
        MAX_EXTENT as u64
    } else {
        internal_area.height as u64
    };
    let whole: u64 = base as u64 * 360_000_000;
    assert(whole == base * NORM_ONE);
    assert(whole * height <= 255 * NORM_ONE * MAX_EXTENT) by (nonlinear_arith)
        requires
            0 <= whole <= 255 * NORM_ONE,
            0 <= height <= MAX_EXTENT,
    ;
    let product: u64 = whole * height;
    let divisor: u64 = area.height as u64;
    proof {
        assert(base * NORM_ONE * scale_height(internal_area) == product) by (nonlinear_arith)
            requires
                whole == base * NORM_ONE,
                product == whole * height,
                height == scale_height(internal_area),
        ;
        vstd::arithmetic::div_mod::lemma_div_is_ordered_by_denominator(
            product as int,
            1,
            divisor as int,
        );
        vstd::arithmetic::div_mod::lemma_div_basics(product as int);
    }
    product / divisor
}

/// A line from the base point to a destination.
#[derive(Debug, PartialEq, Eq)]
pub struct Line {
    pub from: ScreenPoint,
    pub to: ScreenPoint,
    /// In steps of a pixel.
    pub width: u64,
    /// The colour of the destination, as a hex string.
    pub colour: String,
}

/// The base point and the lines that start from it.
#[derive(Debug, PartialEq, Eq)]
pub struct BaseDrawing {
    /// One line for each destination, in their order. They are painted
    /// first, and the disc over them.
    pub lines: Vec<Line>,
    pub centre: ScreenPoint,
    /// In steps of a pixel.
    pub radius: u64,
    /// The colour of the base point, as a hex string.
    pub colour: String,
}

/// The marker of one destination as it is drawn: a disc with a rim, and the
/// icon of the university over it.
#[derive(Debug, PartialEq, Eq)]
pub struct Marker {
    /// The `id` of the university.
    pub id: i32,
    pub position: ScreenPoint,
    /// In steps of a pixel.
    pub radius: u64,
    pub fill: Rgba,
    /// In steps of a pixel.
    pub stroke_width: u64,
    pub stroke: Rgba,
    /// Where the icon is fetched from.
    pub icon: String,
    /// The corner of the icon that is nearest to the origin of the screen.
    pub icon_min: ScreenPoint,
    /// The opposite corner of the icon.
    pub icon_max: ScreenPoint,
    /// Whether a search has found the university, and the pointer has not
    /// been over it since.
    pub highlighted: bool,
}

/// The map and everything on it.
#[derive(Debug, PartialEq, Eq)]
pub struct WorldMap {
    /// Every destination gets a line from this point.
    pub base: FetchedData<University>,
    pub dests: FetchedData<Vec<University>>,
    /// The part of the map that was in view in the last frame.
    pub internal_area: Rect,
    /// The lists that are open.
    pub popups: Vec<ListState>,
    /// The universities whose markers are drawn large.
    pub highlights: Vec<University>,
    /// Where the application is served from, with the slash at its end.
    pub app_url: String,
}

/// Whether `list` holds a record with the values of `item`.
pub open spec fn holds(list: Seq<University>, item: UniversityView) -> bool {
    exists|i: int| 0 <= i < list.len() && (#[trigger] list[i])@ == item
}

/// What is left of a list when only its members that pass a test are kept,
/// in their order.
pub open spec fn kept<T>(list: Seq<T>, keep: spec_fn(T) -> bool) -> Seq<T>
    decreases list.len(),
{
    if list.len() == 0 {
        list
    } else if keep(list.last()) {
        kept(list.drop_last(), keep).push(list.last())
    } else {
        kept(list.drop_last(), keep)
    }
}

/// The test that a record passes which has not the values of `item`.
pub open spec fn differs_from(item: UniversityView) -> spec_fn(University) -> bool {
    |university: University| university@ != item
}

/// The test that a popup passes which the user has not closed.
pub open spec fn is_open() -> spec_fn(ListState) -> bool {
    |popup: ListState| popup.open
}

/// What is left of `list` when every record with the values of `item` is
/// taken out: the others, in their order.
pub open spec fn without(list: Seq<University>, item: UniversityView) -> Seq<University> {
    kept(list, differs_from(item))
}

/// A list on its way from `before` to what is kept of it: the first `i`
/// members of `here` are what is kept of the first `seen` of `before`, and
/// the others are those of `before` that have not been looked at.
pub open spec fn keeping<T>(
    before: Seq<T>,
    seen: int,
    here: Seq<T>,
    i: int,
    keep: spec_fn(T) -> bool,
) -> bool {
    &&& 0 <= seen <= before.len()
    &&& 0 <= i <= here.len()
    &&& here.len() - i == before.len() - seen
    &&& here.subrange(0, i) == kept(before.subrange(0, seen), keep)
    &&& here.subrange(i, here.len() as int) == before.subrange(seen, before.len() as int)
}

/// One step on that way: the member that is looked at stays and is passed
/// over where it passes the test, and is taken out where it does not.
pub proof fn lemma_keeping_step<T>(
    before: Seq<T>,
    seen: int,
    here: Seq<T>,
    i: int,
    keep: spec_fn(T) -> bool,
)
    requires
        keeping(before, seen, here, i, keep),
        i < here.len(),
    ensures
        here[i] == before[seen],
        keep(before[seen]) ==> keeping(before, seen + 1, here, i + 1, keep),
        !keep(before[seen]) ==> keeping(before, seen + 1, here.remove(i), i, keep),
{
    let n = here.len() as int;
    let m = before.len() as int;
    assert(here.subrange(i, n)[0] == before.subrange(seen, m)[0]);
    let tail = here.subrange(i + 1, n);
    let goal = before.subrange(seen + 1, m);
    assert forall|k: int| 0 <= k < tail.len() implies #[trigger] tail[k] == goal[k] by {
        assert(here.subrange(i, n)[k + 1] == before.subrange(seen, m)[k + 1]);
    }
    assert(tail =~= goal);
    assert(before.subrange(0, seen + 1).drop_last() =~= before.subrange(0, seen));
    assert(before.subrange(0, seen + 1).last() == before[seen]);
    if keep(before[seen]) {
        assert(here.subrange(0, i + 1) =~= here.subrange(0, i).push(here[i]));
    } else {
        let rest = here.remove(i);
        assert(rest.subrange(0, i) =~= here.subrange(0, i));
        assert(rest.subrange(i, rest.len() as int) =~= here.subrange(i + 1, n));
    }
}

/// The end of that way: when every member has been looked at, the list is
/// what is kept of `before`.
pub proof fn lemma_keeping_done<T>(
    before: Seq<T>,
    seen: int,
    here: Seq<T>,
    i: int,
    keep: spec_fn(T) -> bool,
)
    requires
        keeping(before, seen, here, i, keep),
        i == here.len(),
    ensures
        here == kept(before, keep),
{
    assert(here.subrange(0, i) =~= here);
    assert(before.subrange(0, seen) =~= before);
}

/// Whether one of the popups belongs to the university `id`.
pub open spec fn has_popup(popups: Seq<ListState>, id: int) -> bool {
    exists|i: int| 0 <= i < popups.len() && (#[trigger] popups[i]).inner.uni_id == id
}

/// No two popups belong to one university.
pub open spec fn distinct_popups(popups: Seq<ListState>) -> bool {
    forall|i: int, j: int|
        0 <= i < j < popups.len() ==> (#[trigger] popups[i]).inner.uni_id != (
        #[trigger] popups[j]).inner.uni_id
}

/// The popups that are still open, in their order.
pub open spec fn open_ones(popups: Seq<ListState>) -> Seq<ListState> {
    kept(popups, is_open())
}

/// The destinations that have arrived, or none.
pub open spec fn shown_dests(dests: FetchedData<Vec<University>>) -> Seq<University> {
    match dests.data {
        Some(list) => list@,
        None => Seq::<University>::empty(),
    }
}

/// `popup` is a list that has just been opened for `university` at `pos`.
pub open spec fn fresh_popup(
    popup: ListState,
    university: University,
    pos: ScreenPoint,
    app_url: Seq<char>,
) -> bool {
    &&& popup.open
    &&& popup.initial_pos == Some(pos)
    &&& popup.inner.title == university.title
    &&& popup.inner.uni_id == university.id
    &&& popup.inner.profiles.url@ == profiles_url_spec(app_url, university.id as int)
    &&& popup.inner.profiles.data is None
    &&& !popup.inner.profiles.done
}

/// `post` is `pre` with a fresh popup for `university` at its end.
pub open spec fn opened(
    pre: Seq<ListState>,
    post: Seq<ListState>,
    university: University,
    pos: ScreenPoint,
    app_url: Seq<char>,
) -> bool {
    &&& post.len() == pre.len() + 1
    &&& post.subrange(0, pre.len() as int) == pre
    &&& fresh_popup(post.last(), university, pos, app_url)
}

/// How the marker of `university` is drawn on a map that fills `area`.
pub open spec fn marker_spec(
    marker: Marker,
    university: University,
    highlighted: bool,
    internal_area: Rect,
    area: Rect,
    app_url: Seq<char>,
) -> bool {
    let reach = if highlighted {
        scaled_spec(HIGHLIGHT_ICON_REACH as int, internal_area, area)
    } else {
        scaled_spec(ICON_REACH as int, internal_area, area)
    };
    &&& marker.id == university.id
    &&& marker.position == marker_position(university, area)
    &&& marker.highlighted == highlighted
    &&& marker.fill == (Rgba { r: 255, g: 255, b: 255, a: 255 })
    &&& marker.radius == if highlighted {
        scaled_spec(HIGHLIGHT_RADIUS as int, internal_area, area)
    } else {
        scaled_spec(MARKER_RADIUS as int, internal_area, area)
    }
    &&& marker.stroke_width == if highlighted {
        scaled_spec(HIGHLIGHT_STROKE as int, internal_area, area)
    } else {
        scaled_spec(MARKER_STROKE as int, internal_area, area)
    }
    &&& marker.stroke == if highlighted {
        Rgba { r: 255, g: 128, b: 128, a: 255 }
    } else {
        Rgba { r: 220, g: 220, b: 220, a: 255 }
    }
    &&& marker.icon@ == app_url + "static/icons/"@ + university.icon@
    &&& marker.icon_min.x == marker.position.x - reach
    &&& marker.icon_min.y == marker.position.y - reach
    &&& marker.icon_max.x == marker.position.x + reach
    &&& marker.icon_max.y == marker.position.y + reach
}

/// How the line to `university` is drawn.
pub open spec fn line_spec(
    line: Line,
    base: University,
    university: University,
    internal_area: Rect,
    area: Rect,
) -> bool {
    &&& line.from == marker_position(base, area)
    &&& line.to == marker_position(university, area)
    &&& line.width == scaled_spec(LINE_WIDTH as int, internal_area, area)
    &&& line.colour == university.colour
}

/// Where a university is drawn on a map that fills `area`.
pub fn place(university: &University, area: Rect) -> (p: ScreenPoint)
    requires
        area.in_bounds(),
    ensures
        p == marker_position(*university, area),
        p.in_reach(),
{
    to_ui_coords(marker_norm(university), area)
}

/// Whether `list` holds a record with the values of `item`.
pub fn contains(list: &Vec<University>, item: &University) -> (b: bool)
    ensures
        b == holds(list@, item@),
{
    let mut i: usize = 0;
    while i < list.len()
        invariant
            i <= list.len(),
            forall|j: int| 0 <= j < i ==> (#[trigger] list@[j])@ != item@,
        decreases list.len() - i,
    {
        if list[i].same_as(item) {
            return true;
        }
        i += 1;
    }
    false
}

/// Takes every record with the values of `item` out of `list`, and leaves
/// the others in their order.
pub fn remove_from_list(list: &mut Vec<University>, item: &University)
    ensures
        final(list)@ == without(old(list)@, item@),
{
    let ghost before = list@;
    let ghost mut seen: int = 0;
    let mut i: usize = 0;
    proof {
        assert(list@.subrange(0, 0) =~= kept(before.subrange(0, 0), differs_from(item@)));
        assert(list@.subrange(0, list@.len() as int) =~= before.subrange(0, before.len() as int));
    }
    while i < list.len()
        invariant
            keeping(before, seen, list@, i as int, differs_from(item@)),
        decreases list.len() - i,
    {
        proof {
            lemma_keeping_step(before, seen, list@, i as int, differs_from(item@));
            seen = seen + 1;
        }
        if list[i].same_as(item) {
            let _ = list.remove(i);
        } else {
            i += 1;
        }
    }
    proof {
        lemma_keeping_done(before, seen, list@, i as int, differs_from(item@));
    }
}

/// `drawing` is the base point of `map` and its lines, drawn on a map that
/// fills `area`: nothing before the base point has arrived, and after that
/// the disc of the base point and one line for each destination.
pub open spec fn base_drawing_spec(map: WorldMap, area: Rect, drawing: Option<BaseDrawing>) -> bool {
    &&& drawing is Some <==> map.base.data is Some
    &&& drawing is Some ==> {
        let shown = drawing->0;
        let base = map.base.data->0;
        let dests = shown_dests(map.dests);
        &&& shown.centre == marker_position(base, area)
        &&& shown.radius == BASE_RADIUS * NORM_ONE
        &&& shown.colour == base.colour
        &&& shown.lines.len() == dests.len()
        &&& forall|i: int|
            0 <= i < dests.len() ==> line_spec(
                #[trigger] shown.lines[i],
                base,
                dests[i],
                map.internal_area,
                area,
            )
    }
}

/// `markers` are the markers of the destinations of `map`, in their order,
/// drawn on a map that fills `area`.
pub open spec fn markers_spec(map: WorldMap, area: Rect, markers: Seq<Marker>) -> bool {
    &&& markers.len() == shown_dests(map.dests).len()
    &&& forall|i: int|
        0 <= i < markers.len() ==> marker_spec(
            #[trigger] markers[i],
            shown_dests(map.dests)[i],
            holds(map.highlights@, shown_dests(map.dests)[i]@),
            map.internal_area,
            area,
            map.app_url@,
        )
}

/// What the pointer is over.
#[derive(Debug, PartialEq, Eq)]
pub struct Hover {
    /// The title of the base point, where the pointer is over it.
    pub base: Option<String>,
    /// The title of the destination that the pointer is on.
    pub marker: Option<String>,
}

/// What a click at `click_pos` does to the popups: where it is on a marker
/// whose university has no popup, a fresh popup for that university is put
/// after the others at `pointer`, and `shown` tells so; otherwise nothing
/// changes.
pub open spec fn click_spec(
    map: WorldMap,
    post: Seq<ListState>,
    click_pos: ScreenPoint,
    area: Rect,
    pointer: ScreenPoint,
    shown: bool,
) -> bool {
    let dests = shown_dests(map.dests);
    let radius = scaled_spec(MARKER_RADIUS as int, map.internal_area, area);
    &&& none_hit(click_pos, dests, area, radius) ==> post == map.popups@ && !shown
    &&& forall|k: int| #[trigger]
        is_nearest(click_pos, dests, area, radius, k) ==> if has_popup(
            map.popups@,
            dests[k].id as int,
        ) {
            post == map.popups@ && !shown
        } else {
            opened(map.popups@, post, dests[k], pointer, map.app_url@) && shown
        }
}

/// What a pointer at `hover_pos` does: it brings up the title of the base
/// point where it is over that, and the title of the destination that it is
/// on, whose marker is from then on drawn small.
pub open spec fn hover_spec(
    map: WorldMap,
    post: Seq<University>,
    hover_pos: ScreenPoint,
    area: Rect,
    hover: Hover,
) -> bool {
    let dests = shown_dests(map.dests);
    let radius = scaled_spec(MARKER_RADIUS as int, map.internal_area, area);
    let base_radius = scaled_spec(BASE_RADIUS as int, map.internal_area, area);
    &&& hover.base is Some <==> map.base.data is Some && hits(
        hover_pos,
        map.base.data->0,
        area,
        base_radius,
    )
    &&& hover.base is Some ==> hover.base->0 == map.base.data->0.title
    &&& none_hit(hover_pos, dests, area, radius) ==> post == map.highlights@ && hover.marker is None
    &&& forall|k: int| #[trigger]
        is_nearest(hover_pos, dests, area, radius, k) ==> post == without(
            map.highlights@,
            dests[k]@,
        ) && hover.marker == Some(dests[k].title)
}

/// Whether one of the popups belongs to the university `id`.
pub fn find_popup(popups: &Vec<ListState>, id: i32) -> (b: bool)
    ensures
        b == has_popup(popups@, id as int),
{
    let mut i: usize = 0;
    while i < popups.len()
        invariant
            i <= popups.len(),
            forall|j: int| 0 <= j < i ==> (#[trigger] popups@[j]).inner.uni_id != id,
        decreases popups.len() - i,
    {
        if popups[i].inner.uni_id == id {
            return true;
        }
        i += 1;
    }
    false
}

/// Takes out the popups that the user has closed, and leaves the others in
/// their order.
pub fn discard_closed(popups: &mut Vec<ListState>)
    ensures
        final(popups)@ == open_ones(old(popups)@),
{
    let ghost before = popups@;
    let ghost mut seen: int = 0;
    let mut i: usize = 0;
    proof {
        assert(popups@.subrange(0, 0) =~= kept(before.subrange(0, 0), is_open()));
        assert(popups@.subrange(0, popups@.len() as int) =~= before.subrange(
            0,
            before.len() as int,
        ));
    }
    while i < popups.len()
        invariant
            keeping(before, seen, popups@, i as int, is_open()),
        decreases popups.len() - i,
    {
        proof {
            lemma_keeping_step(before, seen, popups@, i as int, is_open());
            seen = seen + 1;
        }
        if !popups[i].open {
            let _ = popups.remove(i);
        } else {
            i += 1;
        }
    }
    proof {
        lemma_keeping_done(before, seen, popups@, i as int, is_open());
    }
}

/// What the program has seen in one frame.
#[derive(Debug, PartialEq, Eq)]
pub struct Frame {
    /// The rectangle that the map image fills.
    pub area: Rect,
    /// Where the map was clicked, if it was.
    pub click: Option<ScreenPoint>,
    /// Where the pointer rests on the map, if it does.
    pub hover: Option<ScreenPoint>,
    /// Where the pointer is on the screen: a list that is opened is put
    /// there.
    pub pointer: ScreenPoint,
    /// The part of the map that is in view once the frame has been panned
    /// and zoomed.
    pub internal_area: Rect,
    /// What has arrived of the base point.
    pub base: Arrival<University>,
    /// What has arrived of the destinations.
    pub dests: Arrival<Vec<University>>,
}

/// What is to be painted in one frame, and what else has happened in it.
#[derive(Debug, PartialEq, Eq)]
pub struct Scene {
    pub base: Option<BaseDrawing>,
    pub markers: Vec<Marker>,
    pub hover: Hover,
    /// Whether a list was opened, whose profiles are then to be asked for.
    pub opened: bool,
    /// Whether the screen has to be painted again.
    pub repaint: bool,
}

/// The click that counts in a frame: one on a map that can be drawn, at a
/// position that can be taken back to the unit square.
pub open spec fn click_of(frame: Frame) -> Option<ScreenPoint> {
    if frame.area.viewport() && frame.click is Some && frame.click->0.in_reach() {
        frame.click
    } else {
        None
    }
}

/// The resting pointer that counts in a frame.
pub open spec fn hover_of(frame: Frame) -> Option<ScreenPoint> {
    if frame.area.viewport() && frame.hover is Some && frame.hover->0.in_reach() {
        frame.hover
    } else {
        None
    }
}

/// One frame of the map: `post` and `scene` are what `pre` and `frame` give.
pub open spec fn render_spec(pre: WorldMap, frame: Frame, post: WorldMap, scene: Scene) -> bool {
    &&& post.app_url == pre.app_url
    &&& post.internal_area == frame.internal_area
    &&& post.base == pre.base.poll_spec(frame.base).0
    &&& post.dests == pre.dests.poll_spec(frame.dests).0
    &&& scene.repaint == (pre.base.poll_spec(frame.base).1 || pre.dests.poll_spec(frame.dests).1)
    &&& if frame.area.viewport() {
        &&& base_drawing_spec(pre, frame.area, scene.base)
        &&& markers_spec(pre, frame.area, scene.markers@)
    } else {
        &&& scene.base is None
        &&& scene.markers@ == Seq::<Marker>::empty()
    }
    &&& match click_of(frame) {
        Some(click_pos) => click_spec(
            pre,
            post.popups@,
            click_pos,
            frame.area,
            frame.pointer,
            scene.opened,
        ),
        None => post.popups@ == pre.popups@ && !scene.opened,
    }
    &&& match hover_of(frame) {
        Some(hover_pos) => hover_spec(pre, post.highlights@, hover_pos, frame.area, scene.hover),
        None => post.highlights@ == pre.highlights@ && scene.hover.base is None
            && scene.hover.marker is None,
    }
}

impl WorldMap {
    /// No two lists are open for one university, and no request that is
    /// still out holds a value.
    pub open spec fn wf(self) -> bool {
        &&& distinct_popups(self.popups@)
        &&& self.base.wf()
        &&& self.dests.wf()
        &&& forall|i: int| 0 <= i < self.popups@.len() ==> (#[trigger] self.popups@[i]).inner.profiles.wf()
    }

    /// The map before anything has arrived: the base point and the
    /// destinations asked for, nothing in view, no list open, no marker
    /// highlighted.
    pub fn new(app_url: String) -> (r: Self)
        ensures
            r.app_url == app_url,
            r.base.url@ == app_url@ + "api/base"@,
            r.base.data is None,
            !r.base.done,
            r.dests.url@ == app_url@ + "api/universities"@,
            r.dests.data is None,
            !r.dests.done,
            r.internal_area == (Rect { left: 0, top: 0, width: 0, height: 0 }),
            r.popups@ == Seq::<ListState>::empty(),
            r.highlights@ == Seq::<University>::empty(),
            r.wf(),
    {
        let base: FetchedData<University> = FetchedData::new(join2(app_url.as_str(), "api/base"));
        let dests: FetchedData<Vec<University>> = FetchedData::new(
            join2(app_url.as_str(), "api/universities"),
        );
        WorldMap {
            base,
            dests,
            internal_area: Rect::zero(),
            popups: Vec::new(),
            highlights: Vec::new(),
            app_url,
        }
    }

    /// The base point and the lines from it to the destinations, once the
    /// base point has arrived.
    pub fn draw_base_and_lines(&self, area: Rect) -> (r: Option<BaseDrawing>)
        requires
            area.viewport(),
        ensures
            base_drawing_spec(*self, area, r),
    {
        match &self.base.data {
            Some(base) => {
                let base_pos: ScreenPoint = place(base, area);
                let mut lines: Vec<Line> = Vec::new();
                if let Some(dests) = &self.dests.data {
                    let width: u64 = scaled(LINE_WIDTH, self.internal_area, area);
                    let mut i: usize = 0;
                    while i < dests.len()
                        invariant
                            i <= dests.len(),
                            area.viewport(),
                            lines.len() == i,
                            base_pos == marker_position(*base, area),
                            width == scaled_spec(LINE_WIDTH as int, self.internal_area, area),
                            forall|j: int|
                                0 <= j < i ==> line_spec(
                                    #[trigger] lines[j],
                                    *base,
                                    dests@[j],
                                    self.internal_area,
                                    area,
                                ),
                        decreases dests.len() - i,
                    {
                        lines.push(
                            Line {
                                from: base_pos,
                                to: place(&dests[i], area),
                                width,
                                colour: dests[i].colour.clone(),
                            },
                        );
                        i += 1;
                    }
                }
                Some(
                    BaseDrawing {
                        lines,
                        centre: base_pos,
                        radius: BASE_RADIUS as u64 * 360_000_000,
                        colour: base.colour.clone(),
                    },
                )
            },
            None => None,
        }
    }

    /// The marker of one destination.
    pub fn draw_point(&self, university: &University, area: Rect) -> (marker: Marker)
        requires
            area.viewport(),
        ensures
            marker_spec(
                marker,
                *university,
                holds(self.highlights@, university@),
                self.internal_area,
                area,
                self.app_url@,
            ),
    {
        let position: ScreenPoint = place(university, area);
        let highlighted: bool = contains(&self.highlights, university);
        let icon: String = join3(self.app_url.as_str(), "static/icons/", university.icon.as_str());
        let reach: u64 = if highlighted {
            scaled(HIGHLIGHT_ICON_REACH, self.internal_area, area)
        } else {
            scaled(ICON_REACH, self.internal_area, area)
        };
        let radius: u64 = if highlighted {
            scaled(HIGHLIGHT_RADIUS, self.internal_area, area)
        } else {
            scaled(MARKER_RADIUS, self.internal_area, area)
        };
        let stroke_width: u64 = if highlighted {
            scaled(HIGHLIGHT_STROKE, self.internal_area, area)
        } else {
            scaled(MARKER_STROKE, self.internal_area, area)
        };
        let stroke: Rgba = if highlighted {
            Rgba::light_red()
        } else {
            Rgba::light_gray()
        };
        let step: i64 = reach as i64;
        Marker {
            id: university.id,
            position,
            radius,
            fill: Rgba::white(),
            stroke_width,
            stroke,
            icon,
            icon_min: ScreenPoint { x: position.x - step, y: position.y - step },
            icon_max: ScreenPoint { x: position.x + step, y: position.y + step },
            highlighted,
        }
    }

    /// The markers of the destinations that have arrived, in their order.
    pub fn draw_points(&self, area: Rect) -> (markers: Vec<Marker>)
        requires
            area.viewport(),
        ensures
            markers_spec(*self, area, markers@),
    {
        let mut markers: Vec<Marker> = Vec::new();
        if let Some(dests) = &self.dests.data {
            let mut i: usize = 0;
            while i < dests.len()
                invariant
                    i <= dests.len(),
                    area.viewport(),
                    markers.len() == i,
                    forall|j: int|
                        0 <= j < i ==> marker_spec(
                            #[trigger] markers[j],
                            dests@[j],
                            holds(self.highlights@, dests@[j]@),
                            self.internal_area,
                            area,
                            self.app_url@,
                        ),
                decreases dests.len() - i,
            {
                markers.push(self.draw_point(&dests[i], area));
                i += 1;
            }
        }
        markers
    }

    /// Handles a click on the map at `click_pos`. Where the click is on a
    /// marker, and no list is open for its university, one is opened at
    /// `pointer`. Returns whether a list was opened, whose profiles are then
    /// to be asked for.
    pub fn check_click(&mut self, click_pos: ScreenPoint, area: Rect, pointer: ScreenPoint) -> (shown:
        bool)
        requires
            click_pos.in_reach(),
            area.viewport(),
        ensures
            click_spec(*old(self), final(self).popups@, click_pos, area, pointer, shown),
            old(self).wf() ==> final(self).wf(),
            final(self).base == old(self).base,
            final(self).dests == old(self).dests,
            final(self).internal_area == old(self).internal_area,
            final(self).highlights == old(self).highlights,
            final(self).app_url == old(self).app_url,
    {
        let radius: u64 = scaled(MARKER_RADIUS, self.internal_area, area);
        if let Some(dests) = &self.dests.data {
            match nearest_marker(click_pos, dests, area, radius) {
                Some(k) => {
                    proof {
                        assert forall|l: int| #[trigger]
                            is_nearest(click_pos, dests@, area, radius as int, l) implies l
                            == k by {
                            crate::hit::lemma_nearest_is_unique(
                                click_pos,
                                dests@,
                                area,
                                radius as int,
                                k as int,
                                l,
                            );
                        }
                    }
                    if !find_popup(&self.popups, dests[k].id) {
                        let popup: ListState = ListState::new(
                            dests[k].title.clone(),
                            dests[k].id,
                            pointer,
                            self.app_url.as_str(),
                        );
                        let ghost before = self.popups@;
                        self.popups.push(popup);
                        proof {
                            assert(self.popups@.subrange(0, before.len() as int) =~= before);
                            lemma_opened_is_distinct(
                                before,
                                self.popups@,
                                dests@[k as int],
                                pointer,
                                self.app_url@,
                            );
                            if old(self).wf() {
                                assert forall|i: int| 0 <= i < self.popups@.len() implies (
                                #[trigger] self.popups@[i]).inner.profiles.wf() by {
                                    if i < before.len() {
                                        assert(self.popups@[i] == before[i]);
                                    }
                                }
                            }
                        }
                        return true;
                    }
                },
                None => {},
            }
        } else {
            proof {
                assert forall|l: int|
                    !#[trigger] is_nearest(
                        click_pos,
                        Seq::<University>::empty(),
                        area,
                        radius as int,
                        l,
                    ) by {}
            }
        }
        false
    }

    /// Handles a pointer that rests on the map at `hover_pos`, and tells
    /// which titles to show there. The marker that the pointer is on is no
    /// longer highlighted.
    pub fn check_hover(&mut self, hover_pos: ScreenPoint, area: Rect) -> (hover: Hover)
        requires
            hover_pos.in_reach(),
            area.viewport(),
        ensures
            hover_spec(*old(self), final(self).highlights@, hover_pos, area, hover),
            old(self).wf() ==> final(self).wf(),
            final(self).base == old(self).base,
            final(self).dests == old(self).dests,
            final(self).internal_area == old(self).internal_area,
            final(self).popups == old(self).popups,
            final(self).app_url == old(self).app_url,
    {
        let mut base_title: Option<String> = None;
        if let Some(base) = &self.base.data {
            let base_radius: u64 = scaled(BASE_RADIUS, self.internal_area, area);
            if reach(hover_pos, marker_norm(base), area, base_radius).is_some() {
                base_title = Some(base.title.clone());
            }
        }
        let mut marker_title: Option<String> = None;
        let radius: u64 = scaled(MARKER_RADIUS, self.internal_area, area);
        if let Some(dests) = &self.dests.data {
            match nearest_marker(hover_pos, dests, area, radius) {
                Some(k) => {
                    proof {
                        assert forall|l: int| #[trigger]
                            is_nearest(hover_pos, dests@, area, radius as int, l) implies l
                            == k by {
                            crate::hit::lemma_nearest_is_unique(
                                hover_pos,
                                dests@,
                                area,
                                radius as int,
                                k as int,
                                l,
                            );
                        }
                    }
                    marker_title = Some(dests[k].title.clone());
                    remove_from_list(&mut self.highlights, &dests[k]);
                },
                None => {},
            }
        } else {
            proof {
                assert forall|l: int|
                    !#[trigger] is_nearest(
                        hover_pos,
                        Seq::<University>::empty(),
                        area,
                        radius as int,
                        l,
                    ) by {}
            }
        }
        Hover { base: base_title, marker: marker_title }
    }

    /// One frame of the map. On a rectangle that a map can be drawn in, the
    /// base point, the lines and the markers are laid out as the map stood
    /// when the frame began; then a click opens a list and a resting pointer
    /// brings up titles. After that the part in view is taken over from the
    /// frame, and what has arrived of the base point and of the destinations
    /// is taken in. The lists themselves are shown by `ListState::render`,
    /// and discarded by `close_dismissed`.
    pub fn render(&mut self, frame: Frame) -> (scene: Scene)
        ensures
            render_spec(*old(self), frame, *final(self), scene),
            old(self).wf() ==> final(self).wf(),
    {
        let area: Rect = frame.area;
        let mut base: Option<BaseDrawing> = None;
        let mut markers: Vec<Marker> = Vec::new();
        let mut hover: Hover = Hover { base: None, marker: None };
        let mut opened: bool = false;
        if area.is_viewport() {
            base = self.draw_base_and_lines(area);
            markers = self.draw_points(area);
            if let Some(click_pos) = frame.click {
                if click_pos.is_in_reach() {
                    opened = self.check_click(click_pos, area, frame.pointer);
                }
            }
            if let Some(hover_pos) = frame.hover {
                if hover_pos.is_in_reach() {
                    hover = self.check_hover(hover_pos, area);
                }
            }
        }
        self.internal_area = frame.internal_area;
        let base_came: bool = self.base.poll(frame.base);
        let dests_came: bool = self.dests.poll(frame.dests);
        Scene { base, markers, hover, opened, repaint: base_came || dests_came }
    }

    /// Discards the lists that the user has closed.
    pub fn close_dismissed(&mut self)
        ensures
            final(self).popups@ == open_ones(old(self).popups@),
            old(self).wf() ==> final(self).wf(),
            final(self).base == old(self).base,
            final(self).dests == old(self).dests,
            final(self).internal_area == old(self).internal_area,
            final(self).highlights == old(self).highlights,
            final(self).app_url == old(self).app_url,
    {
        proof {
            lemma_open_ones_is_part(self.popups@);
        }
        discard_closed(&mut self.popups);
        proof {
            if old(self).wf() {
                assert forall|i: int| 0 <= i < self.popups@.len() implies (
                #[trigger] self.popups@[i]).inner.profiles.wf() by {
                    let j = choose|j: int|
                        0 <= j < old(self).popups@.len() && old(self).popups@[j] == self.popups@[i];
                    assert(old(self).popups@[j].inner.profiles.wf());
                }
            }
        }
    }
}

/// A fresh popup for a university that had none leaves the popups distinct,
/// and from then on the university has one.
pub proof fn lemma_opened_is_distinct(
    pre: Seq<ListState>,
    post: Seq<ListState>,
    university: University,
    pos: ScreenPoint,
    app_url: Seq<char>,
)
    requires
        opened(pre, post, university, pos, app_url),
    ensures
        has_popup(post, university.id as int),
        !has_popup(pre, university.id as int) && distinct_popups(pre) ==> distinct_popups(post),
{
    assert(post[post.len() - 1].inner.uni_id == university.id);
    if !has_popup(pre, university.id as int) && distinct_popups(pre) {
        assert forall|i: int, j: int| 0 <= i < j < post.len() implies (#[trigger] post[i]).inner.uni_id
            != (#[trigger] post[j]).inner.uni_id by {
            assert(post[i] == post.subrange(0, pre.len() as int)[i]);
            if j < pre.len() {
                assert(post[j] == post.subrange(0, pre.len() as int)[j]);
            } else {
                assert(pre[i].inner.uni_id != university.id);
            }
        }
    }
}

/// The popups that are left after the closed ones are discarded are some of
/// those that were there, in their order: each of them is open, and they are
/// distinct where those were.
pub proof fn lemma_open_ones_is_part(popups: Seq<ListState>)
    ensures
        open_ones(popups).len() <= popups.len(),
        forall|i: int| 0 <= i < open_ones(popups).len() ==> (#[trigger] open_ones(popups)[i]).open,
        forall|i: int|
            0 <= i < open_ones(popups).len() ==> has_popup(
                popups,
                (#[trigger] open_ones(popups)[i]).inner.uni_id as int,
            ),
        forall|i: int|
            0 <= i < open_ones(popups).len() ==> exists|j: int|
                0 <= j < popups.len() && popups[j] == #[trigger] open_ones(popups)[i],
        distinct_popups(popups) ==> distinct_popups(open_ones(popups)),
    decreases popups.len(),
{
    if popups.len() > 0 {
        let rest = popups.drop_last();
        lemma_open_ones_is_part(rest);
        let kept = open_ones(rest);
        assert forall|i: int| 0 <= i < open_ones(popups).len() implies exists|j: int|
            0 <= j < popups.len() && popups[j] == #[trigger] open_ones(popups)[i] by {
            if i < kept.len() {
                let j = choose|j: int| 0 <= j < rest.len() && rest[j] == kept[i];
                assert(popups[j] == rest[j]);
                assert(open_ones(popups)[i] == kept[i]);
            } else {
                assert(popups[popups.len() - 1] == open_ones(popups)[i]);
            }
        }
        assert forall|i: int| 0 <= i < kept.len() implies has_popup(
            popups,
            (#[trigger] kept[i]).inner.uni_id as int,
        ) by {
            let j = choose|j: int| 0 <= j < rest.len() && (#[trigger] rest[j]).inner.uni_id == kept[i].inner.uni_id;
            assert(popups[j] == rest[j]);
        }
        if popups.last().open {
            assert(popups[popups.len() - 1].inner.uni_id == popups.last().inner.uni_id);
            if distinct_popups(popups) {
                assert forall|i: int, j: int| 0 <= i < j < rest.len() implies (
                #[trigger] rest[i]).inner.uni_id != (#[trigger] rest[j]).inner.uni_id by {
                    assert(rest[i] == popups[i] && rest[j] == popups[j]);
                }
                let all = open_ones(popups);
                assert forall|i: int, j: int| 0 <= i < j < all.len() implies (
                #[trigger] all[i]).inner.uni_id != (#[trigger] all[j]).inner.uni_id by {
                    if j == all.len() - 1 {
                        let l = choose|l: int| 0 <= l < rest.len() && (#[trigger] rest[l]).inner.uni_id == kept[i].inner.uni_id;
                        assert(popups[l] == rest[l]);
                    }
                }
            }
        } else {
            if distinct_popups(popups) {
                assert forall|i: int, j: int| 0 <= i < j < rest.len() implies (
                #[trigger] rest[i]).inner.uni_id != (#[trigger] rest[j]).inner.uni_id by {
                    assert(rest[i] == popups[i] && rest[j] == popups[j]);
                }
            }
        }
    }
}

/// Where every popup is open, none is discarded.
pub proof fn lemma_open_ones_keeps_open(popups: Seq<ListState>)
    requires
        forall|i: int| 0 <= i < popups.len() ==> (#[trigger] popups[i]).open,
    ensures
        open_ones(popups) == popups,
    decreases popups.len(),
{
    if popups.len() > 0 {
        let rest = popups.drop_last();
        assert forall|i: int| 0 <= i < rest.len() implies (#[trigger] rest[i]).open by {
            assert(rest[i] == popups[i]);
        }
        lemma_open_ones_keeps_open(rest);
        assert(rest.push(popups.last()) =~= popups);
    }
}

/// Closing one popup removes that popup and no other: where popup `i` is the
/// only one that the user has closed, the popups that are left are the
/// others, in their order.
pub proof fn lemma_close_removes_one(popups: Seq<ListState>, i: int)
    requires
        0 <= i < popups.len(),
        !popups[i].open,
        forall|j: int| 0 <= j < popups.len() && j != i ==> (#[trigger] popups[j]).open,
    ensures
        open_ones(popups) == popups.remove(i),
    decreases popups.len(),
{
    let rest = popups.drop_last();
    if i == popups.len() - 1 {
        assert forall|j: int| 0 <= j < rest.len() implies (#[trigger] rest[j]).open by {
            assert(rest[j] == popups[j]);
        }
        lemma_open_ones_keeps_open(rest);
        assert(popups.remove(i) =~= rest);
    } else {
        assert(rest[i] == popups[i]);
        assert forall|j: int| 0 <= j < rest.len() && j != i implies (#[trigger] rest[j]).open by {
            assert(rest[j] == popups[j]);
        }
        lemma_close_removes_one(rest, i);
        assert(popups[popups.len() - 1].open);
        assert(rest.remove(i).push(popups.last()) =~= popups.remove(i));
    }
}

/// Opening is idempotent: when a click has opened a list, the same click
/// again, on the map as the first one left it, opens nothing and leaves the
/// lists as they are.
pub proof fn lemma_second_click_opens_nothing(
    first: WorldMap,
    second: WorldMap,
    third: Seq<ListState>,
    click_pos: ScreenPoint,
    area: Rect,
    pointer: ScreenPoint,
    again: ScreenPoint,
    shown: bool,
)
    requires
        click_spec(first, second.popups@, click_pos, area, pointer, true),
        second.dests == first.dests,
        second.internal_area == first.internal_area,
        second.app_url == first.app_url,
        click_spec(second, third, click_pos, area, again, shown),
    ensures
        third == second.popups@,
        !shown,
{
    let dests = shown_dests(first.dests);
    let radius = scaled_spec(MARKER_RADIUS as int, first.internal_area, area);
    if none_hit(click_pos, dests, area, radius) {
    } else {
        let j = choose|j: int| 0 <= j < dests.len() && #[trigger] hits(click_pos, dests[j], area, radius);
        let k = crate::hit::lemma_some_marker_is_nearest(click_pos, dests, area, radius, j);
        assert(is_nearest(click_pos, dests, area, radius, k));
        if !has_popup(first.popups@, dests[k].id as int) {
            lemma_opened_is_distinct(first.popups@, second.popups@, dests[k], pointer, first.app_url@);
        } else {
            let i = choose|i: int| 0 <= i < first.popups@.len() && (#[trigger] first.popups@[i]).inner.uni_id == dests[k].id;
            assert(second.popups@[i].inner.uni_id == dests[k].id);
        }
        assert(has_popup(second.popups@, dests[k].id as int));
    }
}

} // verus!
