//! What the server answers.
//!
//! Each function here takes what a handler has got from the request, the
//! store or the disk, and gives the answer to send: the status, the content
//! type where one is set, and the body.

use crate::text::same_text;
use vstd::string::StrSliceExecFns;
use vstd::prelude::*;

verus! {

/// Errors that may happen in the server.
#[derive(Clone, Copy, Debug, PartialEq, Eq, Structural)]
pub enum AppError {
    /// The server cannot connect to the database.
    DbErr,
    /// The server cannot listen on the port.
    ListenErr,
    /// The server met an error while it ran.
    RuntimeErr,
}

impl AppError {
    /// What is shown of the error: the same word for each.
    pub fn message(&self) -> (s: String)
        ensures
            s@ == "Error"@,
    {
        "Error".to_owned()
    }
}

/// The body of an answer.
#[derive(Debug, PartialEq, Eq)]
pub enum Body {
    /// A text, sent as it is.
    Text(String),
    /// The content of a file.
    Bytes(Vec<u8>),
}

/// An answer to a request.
#[derive(Debug, PartialEq, Eq)]
pub struct Reply {
    pub status: u16,
    /// The content type, where the handler sets one.
    pub content_type: Option<String>,
    pub body: Body,
}

/// `reply` sends `text` as it is, with the given status and no content type
/// of its own.
pub open spec fn is_text(reply: Reply, status: int, text: Seq<char>) -> bool {
    &&& reply.status == status
    &&& reply.content_type is None
    &&& reply.body matches Body::Text(sent) && sent@ == text
}

/// `reply` sends `document` as the body itself, as JSON, with the given
/// status.
pub open spec fn is_json(reply: Reply, status: int, document: Seq<char>) -> bool {
    &&& reply.status == status
    &&& reply.content_type is Some
    &&& reply.content_type->0@ == "application/json"@
    &&& reply.body matches Body::Text(sent) && sent@ == document
}

fn text_reply(status: u16, text: &str) -> (reply: Reply)
    ensures
        is_text(reply, status as int, text@),
{
    Reply { status, content_type: None, body: Body::Text(text.to_owned()) }
}

fn json_reply(document: String) -> (reply: Reply)
    ensures
        is_json(reply, 200, document@),
{
    Reply {
        status: 200,
        content_type: Some("application/json".to_owned()),
        body: Body::Text(document),
    }
}

/// The answer to a ping.
pub fn ping() -> (reply: Reply)
    ensures
        is_text(reply, 200, "Up and running"@),
{
    text_reply(200, "Up and running")
}

/// The answer to a query for rows: the rows are the body, as the JSON array
/// that they were written as; where the query failed, or the rows could not
/// be written, the message is sent with the status of a server error.
fn listing(rows: Result<String, String>) -> (reply: Reply)
    ensures
        match rows {
            Ok(array) => is_json(reply, 200, array@),
            Err(message) => is_text(reply, 500, message@),
        },
{
    match rows {
        Ok(array) => json_reply(array),
        Err(message) => Reply { status: 500, content_type: None, body: Body::Text(message) },
    }
}

/// The answer to a request for all universities: the JSON array of the
/// records, or the message of the store.
pub fn universities(rows: Result<String, String>) -> (reply: Reply)
    ensures
        match rows {
            Ok(array) => is_json(reply, 200, array@),
            Err(message) => is_text(reply, 500, message@),
        },
{
    listing(rows)
}

/// The answer to a request for the profiles of one university: the JSON
/// array of the records, or the message of the store.
pub fn profiles(rows: Result<String, String>) -> (reply: Reply)
    ensures
        match rows {
            Ok(array) => is_json(reply, 200, array@),
            Err(message) => is_text(reply, 500, message@),
        },
{
    listing(rows)
}

/// The answer to a search for universities by their title: the JSON array
/// of the records, or the message of the store.
pub fn search_university(rows: Result<String, String>) -> (reply: Reply)
    ensures
        match rows {
            Ok(array) => is_json(reply, 200, array@),
            Err(message) => is_text(reply, 500, message@),
        },
{
    listing(rows)
}

/// The answer to a request for the base point: its record as JSON.
pub fn base(record: String) -> (reply: Reply)
    ensures
        is_json(reply, 200, record@),
{
    json_reply(record)
}

/// The answer to a request for one university: its record as JSON, or that
/// there is none, or the message of the store.
pub fn get_uni_name(found: Result<Option<String>, String>) -> (reply: Reply)
    ensures
        match found {
            Ok(Some(record)) => is_json(reply, 200, record@),
            Ok(None) => is_text(reply, 404, "No such university"@),
            Err(message) => is_text(reply, 500, message@),
        },
{
    match found {
        Ok(Some(record)) => json_reply(record),
        Ok(None) => text_reply(404, "No such university"),
        Err(message) => Reply { status: 500, content_type: None, body: Body::Text(message) },
    }
}

/// The file of the front end that a path asks for: the path itself, or the
/// start page where the path is empty.
pub open spec fn index_path_spec(path: Seq<char>) -> Seq<char> {
    if path.len() == 0 {
        "index.html"@
    } else {
        path
    }
}

/// The file of the front end that a path asks for.
pub fn index_path(path: &str) -> (file: String)
    ensures
        file@ == index_path_spec(path@),
{
    if path.is_empty() {
        "index.html".to_owned()
    } else {
        path.to_owned()
    }
}

/// Whether a character parts the components of a path on some platform.
pub open spec fn is_separator(c: char) -> bool {
    c == '/' || c == '\\'
}

/// A name that is one file name and no path: it holds no separator, and no
/// colon, which names a drive on some platforms.
pub open spec fn plain_name(name: Seq<char>) -> bool {
    forall|i: int| 0 <= i < name.len() ==> !is_separator(#[trigger] name[i]) && name[i] != ':'
}

/// Where the last dot of a text stands, or -1 where it holds none.
pub open spec fn last_dot(name: Seq<char>) -> int
    decreases name.len(),
{
    if name.len() == 0 {
        -1
    } else if name.last() == '.' {
        name.len() - 1
    } else {
        last_dot(name.drop_last())
    }
}

/// The extension of a plain name: what follows its last dot, unless that
/// dot is its first character, or the name is `..`.
pub open spec fn plain_extension(name: Seq<char>) -> Option<Seq<char>> {
    if last_dot(name) <= 0 || name == seq!['.', '.'] {
        None
    } else {
        Some(name.subrange(last_dot(name) + 1, name.len() as int))
    }
}

/// Where the last `/` of a text stands, or -1 where it holds none.
pub open spec fn last_slash(name: Seq<char>) -> int
    decreases name.len(),
{
    if name.len() == 0 {
        -1
    } else if name.last() == '/' {
        name.len() - 1
    } else {
        last_slash(name.drop_last())
    }
}

/// What follows the last `/` of a path, or the whole of it where it holds
/// none.
pub open spec fn last_component(name: Seq<char>) -> Seq<char> {
    name.subrange(last_slash(name) + 1, name.len() as int)
}

/// A path as a request writes it: its components are parted by `/`, it
/// does not start with one, and it holds no backslash and no colon.
pub open spec fn request_path(name: Seq<char>) -> bool {
    &&& forall|i: int| 0 <= i < name.len() ==> #[trigger] name[i] != '\\' && name[i] != ':'
    &&& (name.len() == 0 || name[0] != '/')
}

/// A request path that ends with the name of a file: what follows its last
/// `/` is neither empty nor `.`.
pub open spec fn names_file(name: Seq<char>) -> bool {
    &&& request_path(name)
    &&& last_component(name).len() > 0
    &&& last_component(name) != seq!['.']
}

/// A name that is joined to a directory as it is: it does not start with a
/// separator, and it holds no colon.
pub open spec fn relative(name: Seq<char>) -> bool {
    &&& name.len() == 0 || !is_separator(name[0])
    &&& forall|i: int| 0 <= i < name.len() ==> #[trigger] name[i] != ':'
}

/// Whether a directory is written in the verbatim form of one platform,
/// `\\?\`, in which a path that is joined to it is rewritten.
pub open spec fn verbatim(root: Seq<char>) -> bool {
    &&& root.len() >= 4
    &&& is_separator(root[0])
    &&& is_separator(root[1])
    &&& root[2] == '?'
    &&& is_separator(root[3])
}

/// `path` is `name` adjoined to `root`: the root, at most one separator, and
/// the name as it came.
pub open spec fn adjoined(root: Seq<char>, name: Seq<char>, path: Seq<char>) -> bool {
    ||| path == root + name
    ||| path == root + seq!['/'] + name
    ||| path == root + seq!['\\'] + name
}

/// What an optional string reads as.
pub open spec fn read_as(text: Option<String>) -> Option<Seq<char>> {
    match text {
        Some(s) => Some(s@),
        None => None,
    }
}

/// The text of an extension, which is empty where there is none.
pub open spec fn extension_text(extension: Option<Seq<char>>) -> Seq<char> {
    match extension {
        Some(text) => text,
        None => Seq::<char>::empty(),
    }
}

/// Whether `part` stands in `text` right after a dot.
pub open spec fn follows_a_dot(text: Seq<char>, part: Seq<char>) -> bool {
    exists|i: int|
        0 < i && i + part.len() <= text.len() && text[i - 1] == '.' && #[trigger] text.subrange(
            i,
            i + part.len(),
        ) == part
}

/// The extension of a file name, from `std::path::Path::extension`, which
/// the standard library documents as the text after the last dot of the
/// last component. Claimed of it: an extension is a part of the name that
/// follows a dot; for a plain name, which is its own last component, and for
/// a request path that ends with the name of a file, whose last component
/// is what follows its last `/`, it is the extension of that component. For
/// other paths it is left open which part is the last component: that
/// differs from one platform to another.
#[verifier::external_body]
fn extension_of(filename: &str) -> (extension: Option<String>)
    ensures
        extension is Some ==> follows_a_dot(filename@, extension->0@),
        plain_name(filename@) ==> read_as(extension) == plain_extension(filename@),
        names_file(filename@) ==> read_as(extension) == plain_extension(
            last_component(filename@),
        ),
{
    match std::path::Path::new(filename).extension() {
        Some(extension) => Some(extension.to_string_lossy().into_owned()),
        None => None,
    }
}

/// The media type that goes with an extension, and the type of any stream of
/// bytes where none is known to go with it.
pub uninterp spec fn media_type(extension: Seq<char>) -> Seq<char>;

/// The media type that goes with an extension, from
/// `mime_guess::from_ext(..).first_or_octet_stream()`. The contract only
/// gives the outcome its name: the types are looked up in a table that the
/// outside crate holds.
#[verifier::external_body]
fn guess_media_type(extension: &str) -> (found: String)
    ensures
        found@ == media_type(extension@),
{
    mime_guess::from_ext(extension).first_or_octet_stream().as_ref().to_string()
}

/// The answer that sends a file of the front end with its media type, or
/// says that there is no such file.
pub fn index_reply(content: Option<Vec<u8>>, media_type: String) -> (reply: Reply)
    ensures
        match content {
            Some(bytes) => reply == (Reply {
                status: 200,
                content_type: Some(media_type),
                body: Body::Bytes(bytes),
            }),
            None => is_text(reply, 404, "404 Not Found"@),
        },
{
    match content {
        Some(bytes) => Reply { status: 200, content_type: Some(media_type), body: Body::Bytes(bytes) },
        None => text_reply(404, "404 Not Found"),
    }
}

/// The answer to a request for a file of the front end. `content` is what
/// the front end holds under `index_path(path)`. The file is sent with the
/// media type that goes with the extension of its name, which for a request
/// path is the extension of what follows the last `/`.
pub fn index(path: &str, content: Option<Vec<u8>>) -> (reply: Reply)
    ensures
        match content {
            Some(bytes) => {
                &&& reply.status == 200
                &&& reply.content_type is Some
                &&& reply.body == Body::Bytes(bytes)
                &&& plain_name(index_path_spec(path@)) ==> reply.content_type->0@ == media_type(
                    extension_text(plain_extension(index_path_spec(path@))),
                )
                &&& names_file(index_path_spec(path@)) ==> reply.content_type->0@ == media_type(
                    extension_text(plain_extension(last_component(index_path_spec(path@)))),
                )
            },
            None => is_text(reply, 404, "404 Not Found"@),
        },
{
    match content {
        Some(bytes) => {
            let file: String = index_path(path);
            proof {
                reveal_strlit("");
                assert(""@ =~= Seq::<char>::empty());
            }
            let found: String = match extension_of(file.as_str()) {
                Some(extension) => guess_media_type(extension.as_str()),
                None => guess_media_type(""),
            };
            index_reply(Some(bytes), found)
        },
        None => index_reply(None, String::new()),
    }
}

/// A path below a directory, from `std::path::Path::join`, which the
/// standard library documents as the path adjoined to the directory.
/// Claimed of it: a relative name is put after the directory as it came,
/// with at most one separator between the two. Which separator, and
/// whether one is put, differs from one platform to another; and nothing is
/// claimed where the directory is written in the verbatim form, in which
/// one platform rewrites the name.
#[verifier::external_body]
fn join_path(root: &str, filename: &str) -> (path: String)
    ensures
        relative(filename@) && !verbatim(root@) ==> adjoined(root@, filename@, path@),
{
    std::path::Path::new(root).join(filename).to_string_lossy().into_owned()
}

/// Whether this is the extension of an image that is served: `png` or `svg`.
pub open spec fn image_extension(extension: Option<Seq<char>>) -> bool {
    extension is Some && (extension->0 == "png"@ || extension->0 == "svg"@)
}

/// Whether files with this extension are served: images only, as `png` or
/// `svg`.
pub open spec fn served_extension(extension: Option<String>) -> bool {
    image_extension(read_as(extension))
}

/// Tests `served_extension`.
pub fn serves(extension: &Option<String>) -> (b: bool)
    ensures
        b == served_extension(*extension),
{
    match extension {
        Some(text) => same_text(text.as_str(), "png") || same_text(text.as_str(), "svg"),
        None => false,
    }
}

/// Decides a request for a static file from the extension that its name has
/// and the path that it would be read from: the path where the extension is
/// served, and the refusal to send otherwise.
pub fn image_or_refusal(extension: Option<String>, path: String) -> (r: Result<String, Reply>)
    ensures
        served_extension(extension) ==> r == Ok::<String, Reply>(path),
        !served_extension(extension) ==> r is Err && is_text(
            r->Err_0,
            404,
            "This site serves only images"@,
        ),
{
    if serves(&extension) {
        Ok(path)
    } else {
        Err(text_reply(404, "This site serves only images"))
    }
}

/// Whether a component `..` of the name starts at its character `i`.
pub open spec fn parent_at(name: Seq<char>, i: int) -> bool {
    &&& 0 <= i && i + 2 <= name.len()
    &&& name[i] == '.' && name[i + 1] == '.'
    &&& (i == 0 || is_separator(name[i - 1]))
    &&& (i + 2 == name.len() || is_separator(name[i + 2]))
}

/// Whether a name may lead out of the directory that it is joined to: it
/// starts with a separator, or holds a colon, or one of its components is
/// `..`.
pub open spec fn leaves_root(name: Seq<char>) -> bool {
    ||| name.len() > 0 && is_separator(name[0])
    ||| exists|i: int| 0 <= i < name.len() && #[trigger] name[i] == ':'
    ||| exists|i: int| #[trigger] parent_at(name, i)
}

fn separates(c: char) -> (b: bool)
    ensures
        b == is_separator(c),
{
    c == '/' || c == '\\'
}

/// Tests `leaves_root`.
pub fn escapes(name: &str) -> (b: bool)
    ensures
        b == leaves_root(name@),
{
    let n: usize = name.unicode_len();
    if n > 0 && separates(name.get_char(0)) {
        return true;
    }
    let mut i: usize = 0;
    while i < n
        invariant
            i <= n,
            n == name@.len(),
            forall|j: int| 0 <= j < i ==> #[trigger] name@[j] != ':',
            forall|j: int| 0 <= j < i ==> !#[trigger] parent_at(name@, j),
        decreases n - i,
    {
        let c: char = name.get_char(i);
        if c == ':' {
            return true;
        }
        if c == '.' && i + 1 < n && name.get_char(i + 1) == '.' {
            let starts: bool = i == 0 || separates(name.get_char(i - 1));
            let ends: bool = i + 2 == n || separates(name.get_char(i + 2));
            if starts && ends {
                assert(parent_at(name@, i as int));
                return true;
            }
        }
        i += 1;
    }
    proof {
        assert forall|j: int| !#[trigger] parent_at(name@, j) by {
            if 0 <= j < n {
            }
        }
    }
    false
}

/// Whether a text ends with `tail`, and has more before it.
pub open spec fn ends_as(name: Seq<char>, tail: Seq<char>) -> bool {
    name.len() > tail.len() && name.subrange(name.len() - tail.len(), name.len() as int) == tail
}

/// Whether a file name holds the extension of an image somewhere: a dot, and
/// right after it `png` or `svg`.
pub open spec fn names_image(filename: Seq<char>) -> bool {
    follows_a_dot(filename, "png"@) || follows_a_dot(filename, "svg"@)
}

/// Decides a request for a static file: the path of the file to send, below
/// `assets_root`, or the refusal to send. Only images are sent, and none
/// from outside the root: a name that may lead out of it is refused, and so
/// is one that nowhere holds a dot with `png` or `svg` after it. A request
/// path that ends with the name of a file, such as `icons/a.png`, is sent
/// exactly where it stays below the root and the extension of that file is
/// `png` or `svg`. Of any other path, it is sent where its extension, as the
/// platform reads the path, is one of the two. The path that is handed out
/// is the root, at most one separator, and the name as it came.
pub fn png(filename: &str, assets_root: &str) -> (r: Result<String, Reply>)
    ensures
        r is Err ==> is_text(r->Err_0, 404, "This site serves only images"@),
        r is Ok ==> names_image(filename@),
        r is Ok ==> !leaves_root(filename@),
        r is Ok && !verbatim(assets_root@) ==> adjoined(assets_root@, filename@, r->Ok_0@),
        names_file(filename@) ==> (r is Ok <==> !leaves_root(filename@) && image_extension(
            plain_extension(last_component(filename@)),
        )),
        plain_name(filename@) ==> (r is Ok <==> image_extension(plain_extension(filename@))),
        plain_name(filename@) && (ends_as(filename@, ".png"@) || ends_as(filename@, ".svg"@))
            ==> r is Ok,
{
    proof {
        if plain_name(filename@) {
            lemma_plain_name_stays(filename@);
        }
        lemma_image_name_has_its_extension(filename@);
    }
    if escapes(filename) {
        return Err(text_reply(404, "This site serves only images"));
    }
    let extension: Option<String> = extension_of(filename);
    if serves(&extension) {
        image_or_refusal(extension, join_path(assets_root, filename))
    } else {
        image_or_refusal(extension, String::new())
    }
}

/// A plain name leads out of the root only where it is `..`, which has no
/// extension.
pub proof fn lemma_plain_name_stays(name: Seq<char>)
    requires
        plain_name(name),
    ensures
        leaves_root(name) ==> plain_extension(name) is None,
{
    if leaves_root(name) {
        if name.len() > 0 && is_separator(name[0]) {
            assert(!is_separator(name[0]));
        } else if exists|i: int| 0 <= i < name.len() && #[trigger] name[i] == ':' {
            let i = choose|i: int| 0 <= i < name.len() && #[trigger] name[i] == ':';
            assert(name[i] != ':');
        } else {
            let i = choose|i: int| #[trigger] parent_at(name, i);
            if i > 0 {
                assert(!is_separator(name[i - 1]));
            }
            if i + 2 < name.len() {
                assert(!is_separator(name[i + 2]));
            }
            assert(name =~= seq!['.', '.']);
        }
    }
}

/// A name that ends with `.png` or `.svg`, and has more before it, has that
/// extension where it is plain.
pub proof fn lemma_image_name_has_its_extension(name: Seq<char>)
    ensures
        ends_as(name, ".png"@) ==> plain_extension(name) == Some("png"@),
        ends_as(name, ".svg"@) ==> plain_extension(name) == Some("svg"@),
{
    reveal_strlit(".png");
    reveal_strlit("png");
    reveal_strlit(".svg");
    reveal_strlit("svg");
    let n = name.len() as int;
    if ends_as(name, ".png"@) {
        lemma_last_dot_before_three(name, ".png"@);
        assert(name.subrange(n - 3, n) =~= "png"@) by {
            assert forall|k: int| 0 <= k < 3 implies name.subrange(n - 3, n)[k] == "png"@[k] by {
                assert(name.subrange(n - 4, n)[k + 1] == ".png"@[k + 1]);
            }
        }
    }
    if ends_as(name, ".svg"@) {
        lemma_last_dot_before_three(name, ".svg"@);
        assert(name.subrange(n - 3, n) =~= "svg"@) by {
            assert forall|k: int| 0 <= k < 3 implies name.subrange(n - 3, n)[k] == "svg"@[k] by {
                assert(name.subrange(n - 4, n)[k + 1] == ".svg"@[k + 1]);
            }
        }
    }
}

/// Where a name ends with a dot and three characters that are no dots, its
/// last dot is that one, and the name is longer than `..`.
proof fn lemma_last_dot_before_three(name: Seq<char>, tail: Seq<char>)
    requires
        tail.len() == 4,
        tail[0] == '.',
        tail[1] != '.',
        tail[2] != '.',
        tail[3] != '.',
        ends_as(name, tail),
    ensures
        last_dot(name) == name.len() - 4,
        last_dot(name) > 0,
        name != seq!['.', '.'],
{
    let n = name.len() as int;
    let part = name.subrange(n - 4, n);
    assert(part[0] == tail[0] && part[1] == tail[1] && part[2] == tail[2] && part[3] == tail[3]);
    assert(name[n - 4] == '.' && name[n - 3] != '.' && name[n - 2] != '.' && name[n - 1] != '.');
    let a = name.drop_last();
    let b = a.drop_last();
    let c = b.drop_last();
    assert(a.last() == name[n - 2]);
    assert(b.last() == name[n - 3]);
    assert(c.last() == name[n - 4]);
    assert(last_dot(name) == last_dot(a));
    assert(last_dot(a) == last_dot(b));
    assert(last_dot(b) == last_dot(c));
    assert(last_dot(c) == c.len() - 1);
    assert(seq!['.', '.'].len() == 2);
}

} // verus!
