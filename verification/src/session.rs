//! Session identity and the layout of the directories that hold sessions.
//!
//! A session is one file in the data directory, named exactly by the
//! session's id. Its content is the captured lines, each followed by a line
//! feed.

use vstd::prelude::*;
use vstd::string::StringExecFns;
use crate::text::{concat_all, digit_value, has_char, join_with, split_on, split_text};
use crate::text::lemma_split_join;

verus! {

/// Where the data directory lies below the home directory.
pub const DATA_DIR_SUFFIX: &'static str = "/.tull/data";

/// Where the metadata directory lies below the home directory.
pub const META_DIR_SUFFIX: &'static str = "/.tull/meta";

/// Where the server's log lies below the metadata directory.
pub const SERVER_LOG_SUFFIX: &'static str = "/server.log";

/// A lower-case hexadecimal digit.
pub open spec fn is_lower_hex(c: char) -> bool {
    digit_value(c) is Some || c == 'a' || c == 'b' || c == 'c' || c == 'd' || c == 'e' || c == 'f'
}

/// What the character at position `i` of a generated id may be: hyphens
/// part the five groups, the third group starts with the version digit 4,
/// the fourth with one of the variant digits, and the rest is lower-case
/// hexadecimal.
pub open spec fn generated_id_char(i: int, c: char) -> bool {
    if i == 8 || i == 13 || i == 18 || i == 23 {
        c == '-'
    } else if i == 14 {
        c == '4'
    } else if i == 19 {
        c == '8' || c == '9' || c == 'a' || c == 'b'
    } else {
        is_lower_hex(c)
    }
}

/// The shape of every generated session id: a random (version 4) UUID in
/// its hyphenated lower-case form, 36 characters long.
pub open spec fn is_generated_id(id: Seq<char>) -> bool {
    &&& id.len() == 36
    &&& forall|i: int| 0 <= i < 36 ==> generated_id_char(i, #[trigger] id[i])
}

/// An id that can name a file directly in the data directory and be found
/// again from a request path: not empty, and without a slash.
pub open spec fn is_plain_name(id: Seq<char>) -> bool {
    id.len() > 0 && !has_char(id, '/')
}

/// The file that holds the session `id`.
pub open spec fn session_path_of(data_dir: Seq<char>, id: Seq<char>) -> Seq<char> {
    data_dir.push('/') + id
}

/// What one captured line adds to its session file.
pub open spec fn record_of(line: Seq<char>) -> Seq<char> {
    line.push('\n')
}

/// The content of a session file to which `lines` were appended in order.
pub open spec fn records_of(lines: Seq<Seq<char>>) -> Seq<char> {
    concat_all(lines.map_values(|line: Seq<char>| record_of(line)))
}

/// The lines that a reader finds in a session file: its content split at
/// every line feed. A content that ends in a line feed therefore has an
/// empty last line.
pub open spec fn lines_of(content: Seq<char>) -> Seq<Seq<char>> {
    split_on(content, '\n')
}

/// What a reader is given for a session: nothing where the file is absent.
pub open spec fn read_lines_of(content: Option<Seq<char>>) -> Option<Seq<Seq<char>>> {
    match content {
        Some(c) => Some(lines_of(c)),
        None => None,
    }
}

/// The home directory as `home::home_dir` reports it, as text. It depends on
/// the environment of the process, so nothing is claimed of it. `None` stands
/// for both an unknown home directory and one that is not valid UTF-8.
#[verifier::external_body]
fn home_directory() -> (home: Option<String>) {
    home::home_dir().and_then(|dir| dir.to_str().map(|s| s.to_string()))
}

/// A fresh identifier from `uuid::Uuid::new_v4`, written by the `Display` of
/// `Uuid`. The value is random; what is claimed holds of every outcome: the
/// hyphenated lower-case form with the version and variant digits of a
/// random UUID. Where the operating system gives no random bytes, `new_v4`
/// panics.
#[verifier::external_body]
fn random_uuid_text() -> (id: String)
    ensures
        is_generated_id(id@),
{
    uuid::Uuid::new_v4().to_string()
}

/// The two directories the tool works in.
#[derive(Clone, Debug, PartialEq, Eq)]
pub struct Directories {
    /// Holds one file per session.
    pub data: String,
    /// Holds the server's log.
    pub meta: String,
}

/// The data directory below `home`.
pub fn data_dir_path(home: &str) -> (path: String)
    ensures
        path@ == home@ + DATA_DIR_SUFFIX@,
{
    String::from_str(home).concat(DATA_DIR_SUFFIX)
}

/// The metadata directory below `home`.
pub fn meta_dir_path(home: &str) -> (path: String)
    ensures
        path@ == home@ + META_DIR_SUFFIX@,
{
    String::from_str(home).concat(META_DIR_SUFFIX)
}

/// Both directories below `home`.
pub fn directories_under(home: &str) -> (dirs: Directories)
    ensures
        dirs.data@ == home@ + DATA_DIR_SUFFIX@,
        dirs.meta@ == home@ + META_DIR_SUFFIX@,
{
    Directories { data: data_dir_path(home), meta: meta_dir_path(home) }
}

/// Both directories below the home directory of the user, or `None` where
/// no home directory is known.
pub fn user_directories() -> (dirs: Option<Directories>)
    ensures
        dirs matches Some(d) ==> exists|home: Seq<char>|
            d.data@ == home + DATA_DIR_SUFFIX@ && d.meta@ == home + META_DIR_SUFFIX@,
{
    let home = home_directory();
    let ghost known = home;
    let dirs = directories_from(home);
    proof {
        if known is Some {
            assert(dirs->0.data@ == known->0@ + DATA_DIR_SUFFIX@ && dirs->0.meta@ == known->0@
                + META_DIR_SUFFIX@);
        }
    }
    dirs
}

/// Both directories below a home directory that may be unknown: they are
/// given exactly where the home directory is.
pub fn directories_from(home: Option<String>) -> (dirs: Option<Directories>)
    ensures
        match home {
            Some(known) => dirs matches Some(d) && d.data@ == known@ + DATA_DIR_SUFFIX@ && d.meta@
                == known@ + META_DIR_SUFFIX@,
            None => dirs is None,
        },
{
    match home {
        Some(known) => Some(directories_under(known.as_str())),
        None => None,
    }
}

/// The server's log file below the metadata directory.
pub fn server_log_path(meta_dir: &str) -> (path: String)
    ensures
        path@ == meta_dir@ + SERVER_LOG_SUFFIX@,
{
    String::from_str(meta_dir).concat(SERVER_LOG_SUFFIX)
}

/// The file that holds the session `id` in `data_dir`.
pub fn session_path(data_dir: &str, id: &str) -> (path: String)
    ensures
        path@ == session_path_of(data_dir@, id@),
{
    let mut path = String::from_str(data_dir);
    path.push('/');
    path.append(id);
    path
}

/// A new session id.
pub fn get_session_id() -> (id: String)
    ensures
        is_generated_id(id@),
{
    random_uuid_text()
}

/// The id a capture runs under: the requested one where a session is
/// reopened, else a new one.
pub fn resolve_session_id(requested: Option<String>) -> (id: String)
    ensures
        match requested {
            Some(r) => id@ == r@,
            None => is_generated_id(id@),
        },
{
    match requested {
        Some(r) => r,
        None => get_session_id(),
    }
}

/// What is appended to the session file for one captured line: the line and
/// a line feed.
pub fn line_record(line: &str) -> (record: String)
    ensures
        record@ == record_of(line@),
{
    let mut record = String::from_str(line);
    record.push('\n');
    record
}

/// The lines of a session, given the content of its file, or `None` where
/// the file does not exist.
pub fn read_lines(content: Option<&str>) -> (lines: Option<Vec<String>>)
    ensures
        match lines {
            Some(found) => read_lines_of(option_view(content)) == Some(found.deep_view()),
            None => content is None,
        },
{
    match content {
        Some(c) => Some(split_text(c, '\n')),
        None => None,
    }
}

/// The view of an optional text.
pub open spec fn option_view(content: Option<&str>) -> Option<Seq<char>> {
    match content {
        Some(c) => Some(c@),
        None => None,
    }
}

/// A generated id is a plain name, and holds no line feed.
pub proof fn lemma_generated_id_is_plain(id: Seq<char>)
    requires
        is_generated_id(id),
    ensures
        is_plain_name(id),
        !has_char(id, '\n'),
{
    assert forall|i: int| 0 <= i < id.len() implies id[i] != '/' && id[i] != '\n' by {
        assert(generated_id_char(i, id[i]));
    }
}

/// The content written for `lines` is the lines joined by line feeds, with
/// one more line feed at the end.
pub proof fn lemma_records_joined(lines: Seq<Seq<char>>)
    ensures
        records_of(lines) == join_with(lines.push(Seq::<char>::empty()), '\n'),
    decreases lines.len(),
{
    let records = lines.map_values(|line: Seq<char>| record_of(line));
    let padded = lines.push(Seq::<char>::empty());
    assert(padded.drop_last() =~= lines);
    if lines.len() == 0 {
        assert(join_with(padded, '\n') =~= Seq::<char>::empty());
    } else {
        lemma_records_joined(lines.drop_last());
        assert(records.drop_last() =~= lines.drop_last().map_values(
            |line: Seq<char>| record_of(line),
        ));
        assert(lines.drop_last().push(Seq::<char>::empty()).drop_last() =~= lines.drop_last());
        if lines.len() == 1 {
            assert(lines.drop_last().push(Seq::<char>::empty()) =~= seq![Seq::<char>::empty()]);
            assert(records_of(lines) =~= lines[0].push('\n'));
            assert(join_with(lines, '\n') == lines[0]);
            assert(join_with(padded, '\n') =~= lines[0].push('\n'));
        } else {
            let shorter = lines.drop_last();
            assert(join_with(shorter.push(Seq::<char>::empty()), '\n') =~= join_with(
                shorter,
                '\n',
            ).push('\n'));
            assert(join_with(padded, '\n') =~= join_with(lines, '\n').push('\n'));
            assert(records_of(lines) =~= records_of(shorter) + lines.last().push('\n'));
        }
    }
}

/// Reading back what was written: a file to which `lines` were appended, none
/// of them holding a line feed, reads as those lines in the same order,
/// followed by one empty line.
pub proof fn lemma_read_back(lines: Seq<Seq<char>>)
    requires
        forall|k: int| 0 <= k < lines.len() ==> !has_char(#[trigger] lines[k], '\n'),
    ensures
        lines_of(records_of(lines)) == lines.push(Seq::<char>::empty()),
{
    let padded = lines.push(Seq::<char>::empty());
    lemma_records_joined(lines);
    assert forall|k: int| 0 <= k < padded.len() implies !has_char(#[trigger] padded[k], '\n') by {
        if k < lines.len() {
            assert(padded[k] == lines[k]);
        }
    }
    lemma_split_join(padded, '\n');
}

} // verus!
