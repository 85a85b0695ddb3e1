use alumnimap::fetch::FetchedData;
use alumnimap::map::WorldMap;
use alumnimap::model::University;
use alumnimap::search::{Outcome, Search};

fn found(id: i32) -> University {
    University {
        id,
        title: format!("Found {id}"),
        icon: String::new(),
        colour: String::new(),
        longitude: 0,
        latitude: 0,
    }
}

#[test]
fn a_new_search_box_is_empty() {
    let search = Search::new();
    assert_eq!(search.fetcher, None);
    assert_eq!(search.text, "");
}

#[test]
fn sending_the_text_off_asks_the_server_and_empties_the_box() {
    let mut map = WorldMap::new(String::from("http://host/"));
    let mut search = Search::new();
    search.text = String::from("Tech");
    assert_eq!(search.render(true, None, &mut map), Outcome { asked: true, repaint: false });
    assert_eq!(search.text, "");
    assert_eq!(
        search.fetcher,
        Some(FetchedData::new(String::from("http://host/api/search/universities/Tech")))
    );
    assert!(map.highlights.is_empty());
}

#[test]
fn nothing_happens_while_nothing_is_sent_or_arrives() {
    let mut map = WorldMap::new(String::from("/"));
    let mut search = Search::new();
    search.text = String::from("typing");
    assert_eq!(search.render(false, None, &mut map), Outcome { asked: false, repaint: false });
    assert_eq!(
        search.render(false, Some(Ok(Some(vec![found(1)]))), &mut map),
        Outcome { asked: false, repaint: false }
    );
    assert_eq!(search.text, "typing");
    assert_eq!(search.fetcher, None);
    assert!(map.highlights.is_empty());
}

#[test]
fn what_is_found_is_highlighted_and_the_search_is_over() {
    let mut map = WorldMap::new(String::from("/"));
    map.highlights.push(found(9));
    let mut search = Search::new();
    search.text = String::from("x");
    assert_eq!(search.render(true, None, &mut map), Outcome { asked: true, repaint: false });
    assert_eq!(search.render(false, None, &mut map), Outcome { asked: false, repaint: false });
    assert!(search.fetcher.is_some());
    assert_eq!(
        search.render(false, Some(Ok(Some(vec![found(1), found(2)]))), &mut map),
        Outcome { asked: false, repaint: true }
    );
    assert_eq!(search.fetcher, None);
    assert_eq!(map.highlights, vec![found(9), found(1), found(2)]);
    assert_eq!(
        search.render(false, Some(Ok(Some(vec![found(3)]))), &mut map),
        Outcome { asked: false, repaint: false }
    );
    assert_eq!(map.highlights.len(), 3);
}

#[test]
fn an_arrival_in_the_frame_of_the_submit_is_not_taken() {
    let mut map = WorldMap::new(String::from("/"));
    let mut search = Search::new();
    assert_eq!(search.render(true, Some(Ok(Some(vec![found(1)]))), &mut map), Outcome { asked: true, repaint: false });
    assert!(map.highlights.is_empty());
    assert_eq!(search.fetcher, Some(FetchedData::new(String::from("/api/search/universities/"))));
}

#[test]
fn a_failed_search_stays_out_and_finds_nothing() {
    let mut map = WorldMap::new(String::from("/"));
    let mut search = Search::new();
    search.text = String::from("x");
    assert_eq!(search.render(true, None, &mut map), Outcome { asked: true, repaint: false });
    assert_eq!(
        search.render(false, Some(Err(String::from("offline"))), &mut map),
        Outcome { asked: false, repaint: true }
    );
    let out = search.fetcher.as_ref().unwrap();
    assert!(out.done);
    assert_eq!(out.data, None);
    assert_eq!(out.url, "/api/search/universities/x");
    assert_eq!(
        search.render(false, Some(Ok(Some(vec![found(1)]))), &mut map),
        Outcome { asked: false, repaint: false }
    );
    assert!(map.highlights.is_empty());
    assert!(search.fetcher.is_some());
}

#[test]
fn an_answer_that_cannot_be_read_finds_nothing() {
    let mut map = WorldMap::new(String::from("/"));
    let mut search = Search::new();
    assert_eq!(search.render(true, None, &mut map), Outcome { asked: true, repaint: false });
    assert_eq!(
        search.render(false, Some(Ok(None)), &mut map),
        Outcome { asked: false, repaint: true }
    );
    assert!(map.highlights.is_empty());
    assert!(search.fetcher.as_ref().unwrap().done);
}

#[test]
fn a_new_search_replaces_the_one_that_is_out() {
    let mut map = WorldMap::new(String::from("/"));
    let mut search = Search::new();
    search.text = String::from("a");
    assert_eq!(search.render(true, None, &mut map), Outcome { asked: true, repaint: false });
    search.text = String::from("b");
    assert_eq!(search.render(true, None, &mut map), Outcome { asked: true, repaint: false });
    assert_eq!(search.fetcher.as_ref().unwrap().url, "/api/search/universities/b");
    assert_eq!(
        search.render(false, Some(Ok(Some(Vec::new()))), &mut map),
        Outcome { asked: false, repaint: true }
    );
    assert_eq!(search.fetcher, None);
    assert!(map.highlights.is_empty());
}
