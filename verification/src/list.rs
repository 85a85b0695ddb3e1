//! The list of profiles that pops up when a marker is clicked.

use crate::card::{card_spec, render as render_card, Card};
use crate::fetch::{Arrival, FetchedData};
use crate::geo::ScreenPoint;
use crate::model::Profile;
use crate::text::{decimal, decimal_spec, join3};
use vstd::prelude::*;

verus! {

/// The profiles of one university, as far as they have arrived.
#[derive(Debug, PartialEq, Eq)]
pub struct List {
    pub profiles: FetchedData<Vec<Profile>>,
    pub title: String,
    pub uni_id: i32,
}

/// A list and the window that shows it.
#[derive(Debug, PartialEq, Eq)]
pub struct ListState {
    /// Cleared when the user closes the window.
    pub open: bool,
    /// Where the window is put when it is first shown.
    pub initial_pos: Option<ScreenPoint>,
    pub inner: List,
}

/// Where a popup stands between the click that opens it and the click that
/// closes it.
#[derive(Clone, Copy, Debug, PartialEq, Eq, Structural)]
pub enum Stage {
    /// Open, and the profiles have not arrived. A popup whose request
    /// failed stays here.
    Fetching,
    /// Open, and the profiles are shown.
    Ready,
    /// Closed by the user, and about to be discarded.
    Closed,
}

/// What is shown of a popup in one frame.
#[derive(Debug, PartialEq, Eq)]
pub struct Window {
    pub title: String,
    /// Where to move the window to, in the first frame only.
    pub position: Option<ScreenPoint>,
    /// One card for each profile, in the order in which they arrived.
    pub cards: Vec<Card>,
    /// Whether the screen has to be painted again: so it is in the frame in
    /// which the request of the list is answered.
    pub repaint: bool,
}

/// Where the profiles of a university are asked for.
pub open spec fn profiles_url_spec(app_url: Seq<char>, uni_id: int) -> Seq<char> {
    app_url + "api/profiles/"@ + decimal_spec(uni_id)
}

/// The profiles that a list shows: those that have arrived, or none.
pub open spec fn shown_profiles(list: List) -> Seq<Profile> {
    match list.profiles.data {
        Some(profiles) => profiles@,
        None => Seq::<Profile>::empty(),
    }
}

impl ListState {
    /// Where the popup stands.
    pub open spec fn stage_spec(self) -> Stage {
        if !self.open {
            Stage::Closed
        } else if self.inner.profiles.data is Some {
            Stage::Ready
        } else {
            Stage::Fetching
        }
    }

    /// Where the popup stands.
    pub fn stage(&self) -> (s: Stage)
        ensures
            s == self.stage_spec(),
    {
        if !self.open {
            Stage::Closed
        } else if self.inner.profiles.data.is_some() {
            Stage::Ready
        } else {
            Stage::Fetching
        }
    }

    /// A new popup for the university `uni_id`, open, with its profiles asked
    /// for and none there yet.
    pub fn new(title: String, uni_id: i32, initial_pos: ScreenPoint, app_url: &str) -> (r: Self)
        ensures
            r.open,
            r.initial_pos == Some(initial_pos),
            r.inner.title == title,
            r.inner.uni_id == uni_id,
            r.inner.profiles.url@ == profiles_url_spec(app_url@, uni_id as int),
            r.inner.profiles.data is None,
            !r.inner.profiles.done,
            r.stage_spec() == Stage::Fetching,
    {
        let id: String = decimal(uni_id);
        let profiles: FetchedData<Vec<Profile>> = FetchedData::new(
            join3(app_url, "api/profiles/", id.as_str()),
        );
        let list = List { profiles, title, uni_id };
        ListState { open: true, initial_pos: Some(initial_pos), inner: list }
    }

    /// The user closes the window.
    pub fn dismiss(&mut self)
        ensures
            !final(self).open,
            final(self).initial_pos == old(self).initial_pos,
            final(self).inner == old(self).inner,
            final(self).stage_spec() == Stage::Closed,
    {
        self.open = false;
    }

    /// One frame of the popup: takes what has arrived for its request, and
    /// lays out the window. The position is handed out once and then
    /// forgotten.
    pub fn render(&mut self, arrived: Arrival<Vec<Profile>>, app_url: &str) -> (w: Window)
        ensures
            final(self).open == old(self).open,
            final(self).initial_pos is None,
            final(self).inner.title == old(self).inner.title,
            final(self).inner.uni_id == old(self).inner.uni_id,
            final(self).inner.profiles == old(self).inner.profiles.poll_spec(arrived).0,
            old(self).inner.profiles.wf() ==> final(self).inner.profiles.wf(),
            w.title == old(self).inner.title,
            w.position == old(self).initial_pos,
            w.repaint == old(self).inner.profiles.poll_spec(arrived).1,
            w.cards.len() == shown_profiles(final(self).inner).len(),
            forall|i: int|
                0 <= i < w.cards.len() ==> card_spec(
                    #[trigger] w.cards[i],
                    shown_profiles(final(self).inner)[i],
                    app_url@,
                ),
    {
        let repaint: bool = self.inner.profiles.poll(arrived);
        let position: Option<ScreenPoint> = self.initial_pos.take();
        let mut cards: Vec<Card> = Vec::new();
        if let Some(data) = &self.inner.profiles.data {
            let mut i: usize = 0;
            while i < data.len()
                invariant
                    i <= data.len(),
                    cards.len() == i,
                    forall|j: int|
                        0 <= j < i ==> card_spec(#[trigger] cards[j], data@[j], app_url@),
                decreases data.len() - i,
            {
                cards.push(render_card(&data[i], app_url));
                i += 1;
            }
        }
        Window { title: self.inner.title.clone(), position, cards, repaint }
    }
}

} // verus!
