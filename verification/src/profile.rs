//! A profile together with the address that its portrait is fetched from.

use crate::card::{card_spec, render as render_card, Card};
use crate::model::Profile;
use vstd::prelude::*;

verus! {

/// One person's profile, ready to be laid out.
#[derive(Debug, PartialEq, Eq)]
pub struct ProfileCard {
    pub inner: Profile,
    /// Where the application is served from, with the slash at its end.
    pub current_url: String,
}

impl ProfileCard {
    /// Wraps a record as it came from the server.
    pub fn convert(value: Profile, current_url: String) -> (r: Self)
        ensures
            r.inner == value,
            r.current_url == current_url,
    {
        ProfileCard { inner: value, current_url }
    }

    /// Lays out the card.
    pub fn render(&mut self) -> (card: Card)
        ensures
            *final(self) == *old(self),
            card_spec(card, old(self).inner, old(self).current_url@),
    {
        render_card(&self.inner, self.current_url.as_str())
    }
}

} // verus!
