//! What the command line tool decides: which kind of record is meant, what
//! is asked for when a record is added, what an answer holds, and how a
//! record is listed.

use crate::model::{Profile, University};
use crate::server::AppError;
use crate::text::{decimal, decimal_spec, join3, same_text};
use vstd::prelude::*;
use vstd::string::StringExecFns;

verus! {

/// The kinds of record that can be listed and added.
#[derive(Clone, Copy, Debug, PartialEq, Eq, Structural)]
pub enum Kind {
    University,
    Profile,
}

/// The kind that a word names, if it names one.
pub open spec fn kind_spec(word: Seq<char>) -> Option<Kind> {
    if word == "university"@ {
        Some(Kind::University)
    } else if word == "profile"@ {
        Some(Kind::Profile)
    } else {
        None
    }
}

/// Reads the kind of record from the command line. Any word but
/// `university` and `profile` is a runtime error.
pub fn parse_kind(word: &str) -> (r: Result<Kind, AppError>)
    ensures
        r == match kind_spec(word@) {
            Some(kind) => Ok::<Kind, AppError>(kind),
            None => Err::<Kind, AppError>(AppError::RuntimeErr),
        },
{
    if same_text(word, "university") {
        Ok(Kind::University)
    } else if same_text(word, "profile") {
        Ok(Kind::Profile)
    } else {
        Err(AppError::RuntimeErr)
    }
}

/// How a university is listed: its `id`, a colon and its title.
pub fn university_line(university: &University) -> (line: String)
    ensures
        line@ == decimal_spec(university.id as int) + ": "@ + university.title@,
{
    let id: String = decimal(university.id);
    join3(id.as_str(), ": ", university.title.as_str())
}

/// How a profile is listed: its `id`, the name, and the title of the
/// university that the person went on to, with colons between them.
pub fn profile_line(profile: &Profile, university: &str) -> (line: String)
    ensures
        line@ == decimal_spec(profile.id as int) + ": "@ + profile.name_primary@ + ": "@
            + university@,
{
    let id: String = decimal(profile.id);
    let mut line: String = join3(id.as_str(), ": ", profile.name_primary.as_str());
    line.append(": ");
    line.append(university);
    line
}

/// One question that is put when a record is added.
#[derive(Debug, PartialEq, Eq)]
pub struct Prompt {
    /// What is printed before the colon.
    pub label: String,
    /// Whether an empty answer stands for no value. Any other question is
    /// put again until the answer can be read.
    pub nullable: bool,
}

fn prompt(label: &str, nullable: bool) -> (p: Prompt)
    ensures
        p.label@ == label@,
        p.nullable == nullable,
{
    Prompt { label: label.to_owned(), nullable }
}

/// The labels of the questions for a kind of record, in the order in which
/// they are put, each with whether its answer may be left empty.
pub open spec fn prompts_spec(kind: Kind) -> Seq<(Seq<char>, bool)> {
    match kind {
        Kind::University => seq![
            ("Title"@, false),
            ("Icon"@, false),
            ("Colour"@, false),
            ("Longitude"@, false),
            ("Latitude"@, false),
        ],
        Kind::Profile => seq![
            ("Primary Name"@, false),
            ("Supplementary Name"@, true),
            ("Class of"@, false),
            ("Avatar"@, false),
            ("University"@, false),
            ("Major"@, true),
            ("Bio"@, true),
            ("Email"@, true),
            ("QQ"@, true),
            ("Wechat"@, true),
        ],
    }
}

/// The questions that are put when a record of this kind is added.
pub fn prompts(kind: Kind) -> (list: Vec<Prompt>)
    ensures
        list@.map_values(|p: Prompt| (p.label@, p.nullable)) == prompts_spec(kind),
{
    let mut list: Vec<Prompt> = Vec::new();
    match kind {
        Kind::University => {
            list.push(prompt("Title", false));
            list.push(prompt("Icon", false));
            list.push(prompt("Colour", false));
            list.push(prompt("Longitude", false));
            list.push(prompt("Latitude", false));
        },
        Kind::Profile => {
            list.push(prompt("Primary Name", false));
            list.push(prompt("Supplementary Name", true));
            list.push(prompt("Class of", false));
            list.push(prompt("Avatar", false));
            list.push(prompt("University", false));
            list.push(prompt("Major", true));
            list.push(prompt("Bio", true));
            list.push(prompt("Email", true));
            list.push(prompt("QQ", true));
            list.push(prompt("Wechat", true));
        },
    }
    assert(list@.map_values(|p: Prompt| (p.label@, p.nullable)) =~= prompts_spec(kind));
    list
}

/// Whether a character is white space: one of those that Unicode gives the
/// property White_Space.
pub open spec fn white_space(c: char) -> bool {
    let code = c as u32;
    ||| 0x9 <= code <= 0xd
    ||| code == 0x20
    ||| code == 0x85
    ||| code == 0xa0
    ||| code == 0x1680
    ||| 0x2000 <= code <= 0x200a
    ||| code == 0x2028
    ||| code == 0x2029
    ||| code == 0x202f
    ||| code == 0x205f
    ||| code == 0x3000
}

/// A line without the white space at its start.
pub open spec fn trim_start(line: Seq<char>) -> Seq<char>
    decreases line.len(),
{
    if line.len() > 0 && white_space(line[0]) {
        trim_start(line.subrange(1, line.len() as int))
    } else {
        line
    }
}

/// A line without the white space at its end.
pub open spec fn trim_end(line: Seq<char>) -> Seq<char>
    decreases line.len(),
{
    if line.len() > 0 && white_space(line.last()) {
        trim_end(line.drop_last())
    } else {
        line
    }
}

/// A line without the white space at its two ends.
pub open spec fn trimmed(line: Seq<char>) -> Seq<char> {
    trim_end(trim_start(line))
}

/// Takes the white space off the two ends of a line, with `str::trim`,
/// which the standard library documents as taking off the characters with
/// the property White_Space.
#[verifier::external_body]
fn trim(line: &str) -> (text: String)
    ensures
        text@ == trimmed(line@),
{
    line.trim().to_string()
}

/// The value that a trimmed answer stands for where the question may be
/// left unanswered: none where the answer is empty.
pub fn value_or_none(answer: String) -> (value: Option<String>)
    ensures
        answer@.len() == 0 ==> value is None,
        answer@.len() != 0 ==> value == Some(answer),
{
    if answer.as_str().is_empty() {
        None
    } else {
        Some(answer)
    }
}

/// The text of an answer: the line that was typed, without the white space
/// round it.
pub fn answer_text(line: &str) -> (text: String)
    ensures
        text@ == trimmed(line@),
{
    trim(line)
}

/// Reads the answer to a question that may be left unanswered: the line
/// without the white space round it, or no value where nothing is left.
pub fn nullable_answer(line: &str) -> (value: Option<String>)
    ensures
        trimmed(line@).len() == 0 ==> value is None,
        trimmed(line@).len() != 0 ==> value is Some && value->0@ == trimmed(line@),
{
    value_or_none(trim(line))
}

} // verus!
