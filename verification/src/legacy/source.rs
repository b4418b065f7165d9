//! Media files and sources of the first layout.
use crate::database_types::{CreateKey, GetQuery, Instanceable, SqlQueries};
use crate::text::{
    decimal, i32_to_string, join_comma, join_with, push_char, push_str, signed_decimal,
    string_from, text_is, u64_to_string, views, chars_of,
};
use vstd::prelude::*;

verus! {

/// The insert statement of the first `main` table.
pub const MEDIA_INSERT: &'static str = "
							INSERT INTO main (name, author, path, extension, file_size, source)
							VALUES (?, ?, ?, ?, ?, ?);
						";

/// The select statement of the first `main` table.
pub const MEDIA_SELECT: &'static str = "SELECT * FROM main;";

/// A media file found in a source folder.
pub struct MediaFile {
    pub name: String,
    pub artist: String,
    pub path: String,
    pub extension: String,
    pub file_size: u64,
}

impl Clone for MediaFile {
    fn clone(&self) -> (r: Self)
        ensures
            r == *self,
    {
        MediaFile {
            name: self.name.clone(),
            artist: self.artist.clone(),
            path: self.path.clone(),
            extension: self.extension.clone(),
            file_size: self.file_size,
        }
    }
}

impl MediaFile {
    /// The text the file displays as: name, artist, path, extension and size,
    /// separated by `", "`.
    pub fn to_display_string(&self) -> (r: String)
        ensures
            r@ == join_with(
                seq![self.name@, self.artist@, self.path@, self.extension@, decimal(self.file_size as nat)],
                seq![',', ' '],
            ),
    {
        let mut parts: Vec<String> = Vec::new();
        parts.push(self.name.clone());
        parts.push(self.artist.clone());
        parts.push(self.path.clone());
        parts.push(self.extension.clone());
        parts.push(u64_to_string(self.file_size));
        assert(views(parts@) =~= seq![self.name@, self.artist@, self.path@, self.extension@, decimal(self.file_size as nat)]);
        join_comma(&parts)
    }
}

impl Instanceable for MediaFile {
    open spec fn is_blank(&self) -> bool {
        &&& self.name@ == Seq::<char>::empty()
        &&& self.artist@ == Seq::<char>::empty()
        &&& self.path@ == Seq::<char>::empty()
        &&& self.extension@ == Seq::<char>::empty()
        &&& self.file_size == 0
    }

    fn new() -> (r: Self) {
        Self {
            name: String::new(),
            artist: String::new(),
            path: String::new(),
            extension: String::new(),
            file_size: 0,
        }
    }
}

impl CreateKey for MediaFile {
    open spec fn key_view(&self) -> Seq<char> {
        self.artist@ + seq!['.'] + self.name@
    }

    fn create_key(&self) -> (r: String) {
        let mut k = self.artist.clone();
        push_char(&mut k, '.');
        push_str(&mut k, self.name.as_str());
        k
    }
}

impl GetQuery for MediaFile {
    open spec fn query_view(&self, query: SqlQueries) -> Seq<char> {
        match query {
            SqlQueries::Insert => MEDIA_INSERT@,
            SqlQueries::Select => MEDIA_SELECT@,
            _ => Seq::empty(),
        }
    }

    fn get_query(&self, query: SqlQueries) -> (r: String) {
        match query {
            SqlQueries::Insert => string_from(MEDIA_INSERT),
            SqlQueries::Select => string_from(MEDIA_SELECT),
            _ => String::new(),
        }
    }
}

/// A stored source, by its row id.
pub struct SourceIndex {
    id: i32,
    path: String,
}

impl SourceIndex {
    /// The record of a stored row.
    pub fn from_columns(id: i32, path: String) -> (r: Self)
        ensures
            r.id() == id,
            r.path() == path,
    {
        SourceIndex { id, path }
    }

    /// The row id.
    pub closed spec fn id(&self) -> i32 {
        self.id
    }

    /// The path.
    pub closed spec fn path(&self) -> String {
        self.path
    }
}

impl CreateKey for SourceIndex {
    open spec fn key_view(&self) -> Seq<char> {
        signed_decimal(self.id() as int)
    }

    fn create_key(&self) -> (r: String) {
        i32_to_string(self.id)
    }
}

/// The media type of the file extensions the first layout handles.
pub open spec fn mime_of(ext: Seq<char>) -> Option<Seq<char>> {
    if ext == "mp3"@ {
        Some("audio/mpeg"@)
    } else if ext == "mp4"@ {
        Some("video/mp4"@)
    } else if ext == "webm"@ {
        Some("video/webm"@)
    } else {
        None
    }
}

/// The media type of a file extension, if the first layout handles it.
pub fn mime_type(extension: &String) -> (r: Option<String>)
    ensures
        match r {
            Some(m) => mime_of(extension@) == Some(m@),
            None => mime_of(extension@) is None,
        },
{
    if text_is(extension, "mp3") {
        Some(string_from("audio/mpeg"))
    } else if text_is(extension, "mp4") {
        Some(string_from("video/mp4"))
    } else if text_is(extension, "webm") {
        Some(string_from("video/webm"))
    } else {
        None
    }
}

/// The part of a file name before its first `.` (the whole name when it has none).
pub open spec fn before_first_dot(s: Seq<char>) -> Seq<char>
    decreases s.len(),
{
    if s.len() == 0 {
        s
    } else if s[0] == '.' {
        Seq::empty()
    } else {
        seq![s[0]] + before_first_dot(s.skip(1))
    }
}

/// The part of a text before its first `.`.
pub fn stem_of(name: &String) -> (r: String)
    ensures
        r@ == before_first_dot(name@),
{
    let cs = chars_of(name.as_str());
    let mut out = String::new();
    let mut i: usize = 0;
    assert(name@.skip(0) =~= name@);
    assert(out@ + before_first_dot(name@.skip(0)) =~= before_first_dot(name@));
    while i < cs.len() && cs[i] != '.'
        invariant
            i <= cs@.len(),
            cs@ == name@,
            forall|j: int| 0 <= j < i ==> cs@[j] != '.',
            out@ == cs@.subrange(0, i as int),
            before_first_dot(name@) == out@ + before_first_dot(name@.skip(i as int)),
        decreases cs@.len() - i,
    {
        push_char(&mut out, cs[i]);
        proof {
            let rest = name@.skip(i as int);
            assert(rest[0] == cs@[i as int]);
            assert(rest.skip(1) =~= name@.skip(i + 1));
            assert(out@ =~= cs@.subrange(0, i + 1));
        }
        i = i + 1;
    }
    proof {
        let rest = name@.skip(i as int);
        if i < cs@.len() {
            assert(rest[0] == '.');
        } else {
            assert(rest.len() == 0);
        }
        assert(out@ + before_first_dot(rest) =~= out@);
    }
    out
}

/// The entry a found file makes, when its extension has a media type: keyed by the
/// name before its first `.`, a `.` and `"unknown"`, with artist `"unknown"`.
pub fn media_entry(file_name: String, extension: String, path: String, file_size: u64) -> (r: Option<(String, MediaFile)>)
    ensures
        match r {
            Some((key, file)) => {
                &&& mime_of(extension@) is Some
                &&& key@ == before_first_dot(file_name@) + seq!['.'] + "unknown"@
                &&& file.name == file_name
                &&& file.artist@ == "unknown"@
                &&& file.extension == extension
                &&& file.path == path
                &&& file.file_size == file_size
            },
            None => mime_of(extension@) is None,
        },
{
    if mime_type(&extension).is_none() {
        return None;
    }
    let artist = string_from("unknown");
    let mut key = stem_of(&file_name);
    push_char(&mut key, '.');
    push_str(&mut key, "unknown");
    Some((key, MediaFile { artist, name: file_name, extension, path, file_size }))
}

} // verus!
