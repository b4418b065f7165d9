//! The older track record of the `main` table.
use crate::database_types::{Convertable, CreateKey, GetQuery, Instanceable, SqlQueries};
use crate::text::{
    bool_text, bool_to_string, chars_of, i32_to_string, join_comma, join_with, push_char,
    signed_decimal, string_from, views,
};
use vstd::prelude::*;

verus! {

/// The insert statement of the `main` table.
pub const MAIN_INSERT: &'static str = "
					INSERT INTO main (name, artist, path, extension, file_size, duration, playing)
					VALUES (?, ?, ?, ?, ?, ?, ?);
				";

/// The select statement of the `main` table.
pub const MAIN_SELECT: &'static str = "SELECT * FROM main;";

/// The characters of `s` without its `"` characters.
pub open spec fn without_quotes(s: Seq<char>) -> Seq<char>
    decreases s.len(),
{
    if s.len() == 0 {
        Seq::empty()
    } else if s.last() == '"' {
        without_quotes(s.drop_last())
    } else {
        without_quotes(s.drop_last()).push(s.last())
    }
}

/// Whether `s` holds a `"`.
pub open spec fn has_quote(s: Seq<char>) -> bool {
    exists|i: int| 0 <= i < s.len() && s[i] == '"'
}

/// Index `i` is the first `"` of `s`.
pub open spec fn is_first_quote(s: Seq<char>, i: int) -> bool {
    &&& 0 <= i < s.len()
    &&& s[i] == '"'
    &&& forall|j: int| 0 <= j < i ==> s[j] != '"'
}

/// Index `i` is the last `"` of `s`.
pub open spec fn is_last_quote(s: Seq<char>, i: int) -> bool {
    &&& 0 <= i < s.len()
    &&& s[i] == '"'
    &&& forall|j: int| i < j < s.len() ==> s[j] != '"'
}

/// What a stored path becomes once its quoting is taken off: the pieces between the
/// first and the last `"`, joined, that is the text strictly between them without
/// its `"` characters.
pub open spec fn unquoted_path(s: Seq<char>, first: int, last: int) -> Seq<char> {
    if first < last {
        without_quotes(s.subrange(first + 1, last))
    } else {
        Seq::empty()
    }
}

/// Takes the quoting off a stored path: splits it at `"`, drops the first and the
/// last piece and joins the rest. The path must hold a `"`.
pub fn strip_path_quotes(path: &String) -> (r: String)
    requires
        has_quote(path@),
    ensures
        exists|first: int, last: int|
            is_first_quote(path@, first) && is_last_quote(path@, last)
                && r@ == #[trigger] unquoted_path(path@, first, last),
{
    let cs = chars_of(path.as_str());
    let n = cs.len();
    let mut first: usize = 0;
    while first < n && cs[first] != '"'
        invariant
            first <= n,
            n == cs@.len(),
            cs@ == path@,
            has_quote(path@),
            forall|j: int| 0 <= j < first ==> cs@[j] != '"',
        decreases n - first,
    {
        first = first + 1;
    }
    let mut last: usize = n - 1;
    while cs[last] != '"'
        invariant
            first <= last < n,
            n == cs@.len(),
            cs@ == path@,
            cs@[first as int] == '"',
            forall|j: int| last < j < n ==> cs@[j] != '"',
        decreases last,
    {
        last = last - 1;
    }
    let mut out = String::new();
    if first < last {
        let mut i: usize = first + 1;
        while i < last
            invariant
                first < i <= last,
                last < n,
                n == cs@.len(),
                out@ == without_quotes(cs@.subrange(first + 1, i as int)),
            decreases last - i,
        {
            let ghost pre = cs@.subrange(first + 1, i as int);
            assert(cs@.subrange(first + 1, i + 1).drop_last() =~= pre);
            if cs[i] != '"' {
                push_char(&mut out, cs[i]);
            }
            i = i + 1;
        }
    }
    assert(is_first_quote(path@, first as int));
    assert(is_last_quote(path@, last as int));
    assert(out@ == unquoted_path(path@, first as int, last as int));
    out
}

/// A track of the older `main` table.
pub struct Track {
    pub id: i32,
    pub name: String,
    pub artist: String,
    pub path: String,
    pub extension: String,
    pub duration: i32,
    pub file_size: i32,
    pub playing: bool,
}

impl Track {
    /// Builds the record from the columns of a stored row, taking the quoting off the
    /// stored path (which must hold a `"`).
    pub fn from_columns(
        id: i32,
        name: String,
        artist: String,
        path: String,
        extension: String,
        file_size: i32,
        duration: i32,
        playing: bool,
    ) -> (r: Self)
        requires
            has_quote(path@),
        ensures
            r.id == id,
            r.name == name,
            r.artist == artist,
            r.extension == extension,
            r.file_size == file_size,
            r.duration == duration,
            r.playing == playing,
            exists|first: int, last: int|
                is_first_quote(path@, first) && is_last_quote(path@, last)
                    && r.path@ == #[trigger] unquoted_path(path@, first, last),
    {
        let stripped = strip_path_quotes(&path);
        Track { id, name, artist, path: stripped, extension, duration, file_size, playing }
    }

    /// The fields as they display, in order.
    pub open spec fn display_parts(&self) -> Seq<Seq<char>> {
        seq![
            self.name@,
            self.artist@,
            self.path@,
            self.extension@,
            signed_decimal(self.duration as int),
            signed_decimal(self.file_size as int),
            bool_text(self.playing),
        ]
    }

    /// The text the track displays as: its fields but the id, separated by `", "`.
    pub fn to_display_string(&self) -> (r: String)
        ensures
            r@ == join_with(self.display_parts(), seq![',', ' ']),
    {
        let mut parts: Vec<String> = Vec::new();
        parts.push(self.name.clone());
        parts.push(self.artist.clone());
        parts.push(self.path.clone());
        parts.push(self.extension.clone());
        parts.push(i32_to_string(self.duration));
        parts.push(i32_to_string(self.file_size));
        parts.push(bool_to_string(self.playing));
        assert(views(parts@) =~= self.display_parts());
        join_comma(&parts)
    }
}

impl Instanceable for Track {
    open spec fn is_blank(&self) -> bool {
        &&& self.id == 0
        &&& self.name@ == Seq::<char>::empty()
        &&& self.artist@ == Seq::<char>::empty()
        &&& self.path@ == Seq::<char>::empty()
        &&& self.extension@ == Seq::<char>::empty()
        &&& self.file_size == 0
        &&& self.duration == 0
        &&& !self.playing
    }

    fn new() -> (r: Self) {
        Self {
            id: 0,
            name: String::new(),
            artist: String::new(),
            path: String::new(),
            extension: String::new(),
            file_size: 0,
            duration: 0,
            playing: false,
        }
    }
}

impl CreateKey for Track {
    open spec fn key_view(&self) -> Seq<char> {
        self.path@
    }

    fn create_key(&self) -> (r: String) {
        self.path.clone()
    }
}

impl GetQuery for Track {
    open spec fn query_view(&self, query: SqlQueries) -> Seq<char> {
        match query {
            SqlQueries::Insert => MAIN_INSERT@,
            SqlQueries::Select => MAIN_SELECT@,
            _ => Seq::empty(),
        }
    }

    fn get_query(&self, query: SqlQueries) -> (r: String) {
        match query {
            SqlQueries::Insert => string_from(MAIN_INSERT),
            SqlQueries::Select => string_from(MAIN_SELECT),
            _ => String::new(),
        }
    }
}

impl Convertable for Track {
    /// This record has no text columns to fill: nothing changes.
    fn convert_to_string(&mut self)
        ensures
            *final(self) == *old(self),
    {
    }
}

} // verus!
