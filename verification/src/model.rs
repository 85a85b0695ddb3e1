//! The two kinds of record that the directory holds.

use vstd::prelude::*;

verus! {

/// A university: where it is, and how its marker looks.
#[derive(Debug, PartialEq, Eq)]
pub struct University {
    /// Given by the store; no two universities share one.
    pub id: i32,
    pub title: String,
    /// The name of the image drawn on the marker.
    pub icon: String,
    /// The colour of the line to the marker, as a hex string.
    pub colour: String,
    /// In millionths of a degree, east positive.
    pub longitude: i32,
    /// In millionths of a degree, north positive.
    pub latitude: i32,
}

/// What a `University` holds, as mathematical values.
pub struct UniversityView {
    pub id: int,
    pub title: Seq<char>,
    pub icon: Seq<char>,
    pub colour: Seq<char>,
    pub longitude: int,
    pub latitude: int,
}

impl View for University {
    type V = UniversityView;

    open spec fn view(&self) -> UniversityView {
        UniversityView {
            id: self.id as int,
            title: self.title@,
            icon: self.icon@,
            colour: self.colour@,
            longitude: self.longitude as int,
            latitude: self.latitude as int,
        }
    }
}

impl Clone for University {
    fn clone(&self) -> (r: Self)
        ensures
            r == *self,
    {
        University {
            id: self.id,
            title: self.title.clone(),
            icon: self.icon.clone(),
            colour: self.colour.clone(),
            longitude: self.longitude,
            latitude: self.latitude,
        }
    }
}

impl University {
    /// Whether two records hold the same values, field by field.
    pub fn same_as(&self, other: &University) -> (b: bool)
        ensures
            b == (self@ == other@),
    {
        self.id == other.id && self.title == other.title && self.icon == other.icon && self.colour
            == other.colour && self.longitude == other.longitude && self.latitude
            == other.latitude
    }
}

/// A person's entry in the directory.
#[derive(Debug, PartialEq, Eq)]
pub struct Profile {
    pub id: i32,
    pub name_primary: String,
    pub name_supplementary: Option<String>,
    /// The year of graduation.
    pub class_of: i32,
    /// The name of the portrait image.
    pub avatar: String,
    /// The `id` of the university that the person went on to.
    pub university_id: i32,
    pub major: Option<String>,
    pub bio: Option<String>,
    pub email: Option<String>,
    pub qq: Option<String>,
    pub wechat: Option<String>,
    pub matrix: Option<String>,
}

/// A copy of an optional string.
pub fn clone_optional(text: &Option<String>) -> (r: Option<String>)
    ensures
        r == *text,
{
    match text {
        Some(s) => Some(s.clone()),
        None => None,
    }
}

impl Clone for Profile {
    fn clone(&self) -> (r: Self)
        ensures
            r == *self,
    {
        Profile {
            id: self.id,
            name_primary: self.name_primary.clone(),
            name_supplementary: clone_optional(&self.name_supplementary),
            class_of: self.class_of,
            avatar: self.avatar.clone(),
            university_id: self.university_id,
            major: clone_optional(&self.major),
            bio: clone_optional(&self.bio),
            email: clone_optional(&self.email),
            qq: clone_optional(&self.qq),
            wechat: clone_optional(&self.wechat),
            matrix: clone_optional(&self.matrix),
        }
    }
}

} // verus!
