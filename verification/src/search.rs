//! The search box: what is typed into it is asked of the server once, and
//! the universities found are highlighted on the map.

use crate::fetch::{Arrival, FetchedData};
use crate::map::WorldMap;
use crate::model::University;
use crate::text::join3;
use vstd::prelude::*;

verus! {

/// The state of the search box.
#[derive(Debug, PartialEq, Eq)]
pub struct Search {
    /// The search that is out, if one is.
    pub fetcher: Option<FetchedData<Vec<University>>>,
    /// What has been typed.
    pub text: String,
}

/// Where universities whose title holds `text` are asked for.
pub open spec fn search_url_spec(app_url: Seq<char>, text: Seq<char>) -> Seq<char> {
    app_url + "api/search/universities/"@ + text
}

/// What the program has to do after a frame of the search box.
#[derive(Clone, Copy, Debug, PartialEq, Eq, Structural)]
pub struct Outcome {
    /// Whether a search has been sent off, which the server is then to be
    /// asked for.
    pub asked: bool,
    /// Whether the screen has to be painted again: so it is in the frame in
    /// which the search that is out is answered.
    pub repaint: bool,
}

/// One frame of the search box: `post`, `highlights` and `outcome` are what
/// `pre` gives when the user has or has not sent the text off, and `arrived`
/// has come for the search that was out.
pub open spec fn search_spec(
    pre: Search,
    app_url: Seq<char>,
    before: Seq<University>,
    submitted: bool,
    arrived: Arrival<Vec<University>>,
    post: Search,
    highlights: Seq<University>,
    outcome: Outcome,
) -> bool {
    if submitted {
        &&& outcome == (Outcome { asked: true, repaint: false })
        &&& post.text@ == Seq::<char>::empty()
        &&& highlights == before
        &&& post.fetcher is Some
        &&& post.fetcher->0.url@ == search_url_spec(app_url, pre.text@)
        &&& post.fetcher->0.data is None
        &&& !post.fetcher->0.done
    } else {
        &&& !outcome.asked
        &&& post.text == pre.text
        &&& match pre.fetcher {
            None => post.fetcher is None && highlights == before && !outcome.repaint,
            Some(out) => {
                let polled = out.poll_spec(arrived).0;
                &&& outcome.repaint == out.poll_spec(arrived).1
                &&& match polled.data {
                    Some(found) => post.fetcher is None && highlights == before + found@,
                    None => post.fetcher == Some(polled) && highlights == before,
                }
            },
        }
    }
}

impl Search {
    /// An empty box, with no search out.
    pub fn new() -> (r: Self)
        ensures
            r.fetcher is None,
            r.text@ == Seq::<char>::empty(),
    {
        Search { fetcher: None, text: String::new() }
    }

    /// One frame of the search box. When the user sends the text off, a
    /// search for it replaces the one that was out, the box is emptied, and
    /// the program is told to ask the server. Otherwise
    /// what has arrived for the search that is out is taken in, and once
    /// universities have been found they are added to the highlights of the
    /// map and the search is over. A search that fails stays out, and finds
    /// nothing.
    pub fn render(
        &mut self,
        submitted: bool,
        arrived: Arrival<Vec<University>>,
        world_map: &mut WorldMap,
    ) -> (outcome: Outcome)
        ensures
            outcome.asked == submitted,
            search_spec(
                *old(self),
                old(world_map).app_url@,
                old(world_map).highlights@,
                submitted,
                arrived,
                *final(self),
                final(world_map).highlights@,
                outcome,
            ),
            old(world_map).wf() ==> final(world_map).wf(),
            final(world_map).base == old(world_map).base,
            final(world_map).dests == old(world_map).dests,
            final(world_map).internal_area == old(world_map).internal_area,
            final(world_map).popups == old(world_map).popups,
            final(world_map).app_url == old(world_map).app_url,
    {
        if submitted {
            let url: String = join3(
                world_map.app_url.as_str(),
                "api/search/universities/",
                self.text.as_str(),
            );
            self.fetcher = Some(FetchedData::new(url));
            self.text = String::new();
            return Outcome { asked: true, repaint: false };
        }
        let mut repaint: bool = false;
        match self.fetcher.take() {
            Some(mut fetching) => {
                repaint = fetching.poll(arrived);
                match fetching.data {
                    Some(mut found) => {
                        world_map.highlights.append(&mut found);
                    },
                    None => {
                        self.fetcher = Some(
                            FetchedData { data: None, done: fetching.done, url: fetching.url },
                        );
                    },
                }
            },
            None => {},
        }
        Outcome { asked: false, repaint }
    }
}

} // verus!
