//! What a profile card shows.

use crate::model::Profile;
use crate::text::{decimal, decimal_spec, join2, join3, text_of};
use vstd::prelude::*;

verus! {

/// The text of an optional string: the string itself, or the empty text.
pub fn extract_string(from: Option<&String>) -> (s: &str)
    ensures
        s@ == extract_spec(from),
{
    if let Some(str) = from {
        str.as_str()
    } else {
        proof {
            reveal_strlit("");
        }
        let empty: &'static str = "";
        assert(empty@ =~= Seq::<char>::empty());
        empty
    }
}

/// The text of an optional string: the string itself, or the empty text.
pub open spec fn extract_spec(from: Option<&String>) -> Seq<char> {
    match from {
        Some(s) => s@,
        None => Seq::<char>::empty(),
    }
}

/// The contact details of a person, folded away under a heading: two
/// columns of lines, each line a sign and the detail.
#[derive(Debug, PartialEq, Eq)]
pub struct Contacts {
    /// Tells the sections of different people apart: the person's `id`.
    pub id_salt: i32,
    pub heading: String,
    /// WeChat, then QQ, as far as they are known.
    pub left: Vec<String>,
    /// E-mail, then Matrix, as far as they are known.
    pub right: Vec<String>,
}

/// What the card of one person shows.
#[derive(Debug, PartialEq, Eq)]
pub struct Card {
    /// Where the portrait is fetched from.
    pub avatar_url: String,
    pub name_primary: String,
    pub name_supplementary: String,
    /// The year of graduation, as it is written on the card.
    pub class_label: String,
    pub bio: String,
    pub major: String,
    pub contacts: Contacts,
}

/// The lines of one column: a line for each of the two details that is
/// known, the first above the second.
pub open spec fn column_spec(
    first: Option<String>,
    first_sign: Seq<char>,
    second: Option<String>,
    second_sign: Seq<char>,
) -> Seq<Seq<char>> {
    let upper = match first {
        Some(text) => seq![first_sign + text@],
        None => Seq::<Seq<char>>::empty(),
    };
    match second {
        Some(text) => upper.push(second_sign + text@),
        None => upper,
    }
}

/// The views of the lines of a column.
pub open spec fn lines_of(column: Vec<String>) -> Seq<Seq<char>> {
    column@.map_values(|line: String| line@)
}

fn column(first: &Option<String>, first_sign: &str, second: &Option<String>, second_sign: &str) -> (r:
    Vec<String>)
    ensures
        lines_of(r) == column_spec(*first, first_sign@, *second, second_sign@),
{
    let mut lines: Vec<String> = Vec::new();
    if let Some(text) = first {
        lines.push(join2(first_sign, text.as_str()));
    }
    if let Some(text) = second {
        lines.push(join2(second_sign, text.as_str()));
    }
    assert(lines_of(lines) =~= column_spec(*first, first_sign@, *second, second_sign@));
    lines
}

/// The contacts section of a person.
pub open spec fn contacts_spec(contacts: Contacts, model: Profile) -> bool {
    &&& contacts.id_salt == model.id
    &&& contacts.heading@ == "\u{f06cb}"@
    &&& lines_of(contacts.left) == column_spec(
        model.wechat,
        "\u{f0611} "@,
        model.qq,
        "\u{f0605} "@,
    )
    &&& lines_of(contacts.right) == column_spec(
        model.email,
        "\u{f01ee} "@,
        model.matrix,
        "\u{f0628} "@,
    )
}

/// Lays out the contacts section of a card.
pub fn render_contacts(model: &Profile) -> (contacts: Contacts)
    ensures
        contacts_spec(contacts, *model),
{
    Contacts {
        id_salt: model.id,
        heading: "\u{f06cb}".to_owned(),
        left: column(&model.wechat, "\u{f0611} ", &model.qq, "\u{f0605} "),
        right: column(&model.email, "\u{f01ee} ", &model.matrix, "\u{f0628} "),
    }
}

/// What the card of `model` shows when the application is served from
/// `app_url`.
pub open spec fn card_spec(card: Card, model: Profile, app_url: Seq<char>) -> bool {
    &&& card.avatar_url@ == app_url + "static/avatars/"@ + model.avatar@
    &&& card.name_primary@ == model.name_primary@
    &&& card.name_supplementary@ == text_of(model.name_supplementary)
    &&& card.class_label@ == decimal_spec(model.class_of as int) + "\u{5c4a}"@
    &&& card.bio@ == text_of(model.bio)
    &&& card.major@ == text_of(model.major)
    &&& contacts_spec(card.contacts, model)
}

/// Lays out the card of one person.
pub fn render(model: &Profile, app_url: &str) -> (card: Card)
    ensures
        card_spec(card, *model, app_url@),
{
    let class_of: String = decimal(model.class_of);
    Card {
        avatar_url: join3(app_url, "static/avatars/", model.avatar.as_str()),
        name_primary: model.name_primary.clone(),
        name_supplementary: extract_string(model.name_supplementary.as_ref()).to_owned(),
        class_label: join2(class_of.as_str(), "\u{5c4a}"),
        bio: extract_string(model.bio.as_ref()).to_owned(),
        major: extract_string(model.major.as_ref()).to_owned(),
        contacts: render_contacts(model),
    }
}

} // verus!
