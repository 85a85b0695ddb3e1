//! What the server is configured with.

use crate::model::University;
use vstd::prelude::*;
use vstd::std_specs::convert::FromSpecImpl;

verus! {

/// Where the server finds its data.
#[derive(Debug, PartialEq, Eq)]
pub struct General {
    pub database_uri: String,
    /// The directory that the images are served from.
    pub assets_root: String,
}

/// The home point, which every destination gets a line from.
#[derive(Debug, PartialEq, Eq)]
pub struct Base {
    pub title: String,
    /// As a hex string.
    pub colour: String,
    /// In millionths of a degree, east positive.
    pub longitude: i32,
    /// In millionths of a degree, north positive.
    pub latitude: i32,
}

/// The whole configuration.
#[derive(Debug, PartialEq, Eq)]
pub struct Settings {
    pub general: General,
    pub base: Base,
}

/// The `id` of the base point, which no university in the store has.
pub const BASE_ID: i32 = -1;

/// `university` is the base point `base` as a record: with the `id` of the
/// base point, and without an icon.
pub open spec fn base_record(base: Base, university: University) -> bool {
    &&& university.id == BASE_ID
    &&& university.title == base.title
    &&& university.icon@ == Seq::<char>::empty()
    &&& university.colour == base.colour
    &&& university.longitude == base.longitude
    &&& university.latitude == base.latitude
}

impl FromSpecImpl<Base> for University {
    /// Two strings that read the same need not be one value, so `from` does
    /// not promise the very record that `from_spec` picks: what it promises
    /// is `base_record`.
    open spec fn obeys_from_spec() -> bool {
        false
    }

    open spec fn from_spec(val: Base) -> University {
        choose|university: University| base_record(val, university)
    }
}

impl From<Base> for University {
    /// The base point as a record.
    fn from(val: Base) -> (university: University)
        ensures
            base_record(val, university),
    {
        University {
            id: BASE_ID,
            title: val.title,
            icon: String::new(),
            colour: val.colour,
            longitude: val.longitude,
            latitude: val.latitude,
        }
    }
}

} // verus!
