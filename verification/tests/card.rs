use alumnimap::card::{extract_string, render, render_contacts, Card, Contacts};
use alumnimap::model::{clone_optional, Profile, University};
use alumnimap::profile::ProfileCard;

fn full_profile() -> Profile {
    Profile {
        id: 12,
        name_primary: String::from("\u{674e}\u{96f7}"),
        name_supplementary: Some(String::from("Li Lei")),
        class_of: 2024,
        avatar: String::from("lilei.png"),
        university_id: 3,
        major: Some(String::from("Physics")),
        bio: Some(String::from("Hello")),
        email: Some(String::from("li@example.org")),
        qq: Some(String::from("10001")),
        wechat: Some(String::from("lilei")),
        matrix: Some(String::from("@li:example.org")),
    }
}

fn bare_profile() -> Profile {
    Profile {
        id: -3,
        name_primary: String::from("Han"),
        name_supplementary: None,
        class_of: -5,
        avatar: String::new(),
        university_id: 3,
        major: None,
        bio: None,
        email: None,
        qq: None,
        wechat: None,
        matrix: None,
    }
}

#[test]
fn extract_string_gives_the_text_or_nothing() {
    let text = String::from("abc");
    assert_eq!(extract_string(Some(&text)), "abc");
    assert_eq!(extract_string(None), "");
    let empty = String::new();
    assert_eq!(extract_string(Some(&empty)), "");
}

#[test]
fn a_full_card() {
    let card = render(&full_profile(), "http://host/");
    assert_eq!(
        card,
        Card {
            avatar_url: String::from("http://host/static/avatars/lilei.png"),
            name_primary: String::from("\u{674e}\u{96f7}"),
            name_supplementary: String::from("Li Lei"),
            class_label: String::from("2024\u{5c4a}"),
            bio: String::from("Hello"),
            major: String::from("Physics"),
            contacts: Contacts {
                id_salt: 12,
                heading: String::from("\u{f06cb}"),
                left: vec![String::from("\u{f0611} lilei"), String::from("\u{f0605} 10001")],
                right: vec![
                    String::from("\u{f01ee} li@example.org"),
                    String::from("\u{f0628} @li:example.org"),
                ],
            },
        }
    );
}

#[test]
fn a_card_with_nothing_optional() {
    let card = render(&bare_profile(), "/");
    assert_eq!(card.avatar_url, "/static/avatars/");
    assert_eq!(card.name_supplementary, "");
    assert_eq!(card.class_label, "-5\u{5c4a}");
    assert_eq!(card.bio, "");
    assert_eq!(card.major, "");
    assert!(card.contacts.left.is_empty());
    assert!(card.contacts.right.is_empty());
    assert_eq!(card.contacts.id_salt, -3);
}

#[test]
fn contacts_keep_their_columns() {
    let mut profile = bare_profile();
    profile.qq = Some(String::from("42"));
    profile.matrix = Some(String::new());
    let contacts = render_contacts(&profile);
    assert_eq!(contacts.left, vec![String::from("\u{f0605} 42")]);
    assert_eq!(contacts.right, vec![String::from("\u{f0628} ")]);
    profile.wechat = Some(String::from("w"));
    profile.email = Some(String::from("e"));
    let contacts = render_contacts(&profile);
    assert_eq!(contacts.left, vec![String::from("\u{f0611} w"), String::from("\u{f0605} 42")]);
    assert_eq!(contacts.right, vec![String::from("\u{f01ee} e"), String::from("\u{f0628} ")]);
}

#[test]
fn profile_card_lays_out_the_same_card() {
    let mut wrapped = ProfileCard::convert(full_profile(), String::from("http://host/"));
    assert_eq!(wrapped.inner, full_profile());
    assert_eq!(wrapped.current_url, "http://host/");
    assert_eq!(wrapped.render(), render(&full_profile(), "http://host/"));
    assert_eq!(wrapped.inner, full_profile());
}

#[test]
fn records_are_copied_field_by_field() {
    let profile = full_profile();
    assert_eq!(profile.clone(), profile);
    assert_eq!(bare_profile().clone(), bare_profile());
    assert_eq!(clone_optional(&Some(String::from("x"))), Some(String::from("x")));
    assert_eq!(clone_optional(&None), None);
    let university = University {
        id: 1,
        title: String::from("T"),
        icon: String::from("i"),
        colour: String::from("#fff"),
        longitude: 5,
        latitude: -5,
    };
    assert_eq!(university.clone(), university);
    assert!(university.same_as(&university.clone()));
    let mut other = university.clone();
    other.latitude = 5;
    assert!(!university.same_as(&other));
    let mut other = university.clone();
    other.icon = String::from("j");
    assert!(!university.same_as(&other));
}
