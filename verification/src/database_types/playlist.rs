//! The older playlist record, which keeps its lists as JSON text columns.
use crate::data_types::playlist::AudioEntry;
use crate::database_types::{Convertable, CreateKey, GetQuery, Instanceable, SqlQueries};
use crate::requests::auth::hex_digit;
use crate::text::{join_with, string_from};
use vstd::prelude::*;

verus! {

/// The insert statement of the older `playlists` table.
pub const STORED_PLAYLIST_INSERT: &'static str = "
				INSERT INTO playlists (name, sources, image_url, audio_list, created_at, listened_at)
				VALUES (?, ?, ?, ?, ?, ?);
			";

/// The select statement of the older `playlists` table.
pub const STORED_PLAYLIST_SELECT: &'static str = "SELECT * FROM playlists;";

/// How one character appears inside a JSON string as `serde_json` writes it: `"`
/// and the backslash escaped with a backslash; backspace, form feed, line feed,
/// carriage return and tab as a backslash and `b`, `f`, `n`, `r`, `t`; other control
/// characters below 32 as a backslash, `u00` and two lowercase hex digits; every other
/// character as itself.
pub open spec fn json_char(c: char) -> Seq<char> {
    if c == '"' {
        seq!['\\', '"']
    } else if c == '\\' {
        seq!['\\', '\\']
    } else if c == '\u{8}' {
        seq!['\\', 'b']
    } else if c == '\u{c}' {
        seq!['\\', 'f']
    } else if c == '\n' {
        seq!['\\', 'n']
    } else if c == '\r' {
        seq!['\\', 'r']
    } else if c == '\t' {
        seq!['\\', 't']
    } else if (c as int) < 32 {
        seq!['\\', 'u', '0', '0', hex_digit((c as int) / 16), hex_digit((c as int) % 16)]
    } else {
        seq![c]
    }
}

/// The characters of a text, each as it appears inside a JSON string.
pub open spec fn json_escaped(s: Seq<char>) -> Seq<char>
    decreases s.len(),
{
    if s.len() == 0 {
        Seq::empty()
    } else {
        json_escaped(s.drop_last()) + json_char(s.last())
    }
}

/// A text as a JSON string: quoted, with its characters escaped.
pub open spec fn json_quoted(s: Seq<char>) -> Seq<char> {
    seq!['"'] + json_escaped(s) + seq!['"']
}

/// What `serde_json::to_string` gives for a list of strings: a JSON array of the
/// quoted strings separated by `,`, with no spaces. Serialising strings into memory
/// does not fail, so there is always a text.
pub open spec fn json_of_string_list(items: Seq<Seq<char>>) -> Option<Seq<char>> {
    Some(seq!['['] + join_with(items.map_values(|x: Seq<char>| json_quoted(x)), seq![',']) + seq![']'])
}

/// What `serde_json::to_string` gives for one string: the quoted string (see
/// [`json_quoted`]). Serialising a string into memory does not fail.
pub open spec fn json_of_string(s: Seq<char>) -> Option<Seq<char>> {
    Some(json_quoted(s))
}

/// What `serde_json::from_str::<Vec<String>>` gives for a text (`None` for an error).
pub uninterp spec fn string_list_of_json(s: Seq<char>) -> Option<Seq<Seq<char>>>;

/// The views of an optional string.
pub open spec fn opt_view(o: Option<String>) -> Option<Seq<char>> {
    match o {
        Some(t) => Some(t@),
        None => None,
    }
}

/// The views of an optional list of strings.
pub open spec fn opt_list_view(o: Option<Vec<String>>) -> Option<Seq<Seq<char>>> {
    match o {
        Some(v) => Some(v.deep_view()),
        None => None,
    }
}

/// `serde_json::to_string` of a list of strings; the contract states the JSON array
/// text (see [`json_of_string_list`]).
#[verifier::external_body]
fn json_string_list(items: &Vec<String>) -> (r: Option<String>)
    ensures
        opt_view(r) == json_of_string_list(items.deep_view()),
{
    serde_json::to_string(items).ok()
}

/// `serde_json::to_string` of one string; the contract states the quoted and escaped
/// JSON string text (see [`json_of_string`]).
#[verifier::external_body]
fn json_string(s: &String) -> (r: Option<String>)
    ensures
        opt_view(r) == json_of_string(s@),
{
    serde_json::to_string(s).ok()
}

/// `serde_json::from_str::<Vec<String>>`; the contract names its result, the list
/// the JSON text holds, or `None` when the text is no JSON array of strings.
#[verifier::external_body]
fn parse_json_string_list(s: &str) -> (r: Option<Vec<String>>)
    ensures
        opt_list_view(r) == string_list_of_json(s@),
{
    serde_json::from_str::<Vec<String>>(s).ok()
}

/// A playlist of the older layout.
pub struct Playlist {
    pub id: i32,
    pub name: String,
    pub sources: Vec<String>,
    pub image_url: String,
    pub created_at: String,
    pub listened_at: String,
    pub audio_list: Vec<AudioEntry>,
    pub _sources_string: String,
    pub _audio_list_string: String,
}

impl Playlist {
    /// Builds the record from the columns of a stored row. The `sources` column holds
    /// a JSON list of strings; text that is no such list gives an empty list. The
    /// audio list is the already decoded `audio_list` column. Both text columns start empty.
    pub fn from_columns(
        id: i32,
        name: String,
        sources: &str,
        image_url: String,
        created_at: String,
        listened_at: String,
        audio_list: Vec<AudioEntry>,
    ) -> (r: Self)
        ensures
            r.id == id,
            r.name == name,
            r.sources.deep_view() == (match string_list_of_json(sources@) {
                Some(v) => v,
                None => Seq::empty(),
            }),
            r.image_url == image_url,
            r.created_at == created_at,
            r.listened_at == listened_at,
            r.audio_list == audio_list,
            r._sources_string@ == Seq::<char>::empty(),
            r._audio_list_string@ == Seq::<char>::empty(),
    {
        let parsed = parse_json_string_list(sources);
        let list = match parsed {
            Some(v) => v,
            None => {
                let e: Vec<String> = Vec::new();
                assert(e.deep_view() =~= Seq::<Seq<char>>::empty());
                e
            },
        };
        Self {
            id,
            name,
            sources: list,
            image_url,
            created_at,
            listened_at,
            audio_list,
            _sources_string: String::new(),
            _audio_list_string: String::new(),
        }
    }
}

impl Instanceable for Playlist {
    open spec fn is_blank(&self) -> bool {
        &&& self.id == 0
        &&& self.name@ == Seq::<char>::empty()
        &&& self.sources@.len() == 0
        &&& self.image_url@ == Seq::<char>::empty()
        &&& self.created_at@ == Seq::<char>::empty()
        &&& self.listened_at@ == Seq::<char>::empty()
        &&& self.audio_list@.len() == 0
        &&& self._sources_string@ == Seq::<char>::empty()
        &&& self._audio_list_string@ == Seq::<char>::empty()
    }

    fn new() -> (r: Self) {
        Self {
            id: 0,
            name: String::new(),
            sources: Vec::new(),
            image_url: String::new(),
            created_at: String::new(),
            listened_at: String::new(),
            audio_list: Vec::new(),
            _audio_list_string: String::new(),
            _sources_string: String::new(),
        }
    }
}

impl CreateKey for Playlist {
    open spec fn key_view(&self) -> Seq<char> {
        self.name@
    }

    fn create_key(&self) -> (r: String) {
        self.name.clone()
    }
}

impl GetQuery for Playlist {
    open spec fn query_view(&self, query: SqlQueries) -> Seq<char> {
        match query {
            SqlQueries::Insert => STORED_PLAYLIST_INSERT@,
            SqlQueries::Select => STORED_PLAYLIST_SELECT@,
            _ => Seq::empty(),
        }
    }

    fn get_query(&self, query: SqlQueries) -> (r: String) {
        match query {
            SqlQueries::Insert => string_from(STORED_PLAYLIST_INSERT),
            SqlQueries::Select => string_from(STORED_PLAYLIST_SELECT),
            _ => String::new(),
        }
    }
}

/// The text of a serialisation, or the empty text when it failed.
pub open spec fn or_empty(o: Option<Seq<char>>) -> Seq<char> {
    match o {
        Some(t) => t,
        None => Seq::empty(),
    }
}

impl Playlist {
    /// Fills the text columns: `_sources_string` with the JSON of `sources`, and
    /// `_audio_list_string` with the JSON of the previous `_audio_list_string`
    /// (a failed serialisation gives the empty text). Nothing else changes.
    pub fn fill_text_columns(&mut self)
        ensures
            final(self)._sources_string@ == or_empty(json_of_string_list(old(self).sources.deep_view())),
            final(self)._audio_list_string@ == or_empty(json_of_string(old(self)._audio_list_string@)),
            final(self).id == old(self).id,
            final(self).name == old(self).name,
            final(self).sources == old(self).sources,
            final(self).image_url == old(self).image_url,
            final(self).created_at == old(self).created_at,
            final(self).listened_at == old(self).listened_at,
            final(self).audio_list == old(self).audio_list,
    {
        self._sources_string = match json_string_list(&self.sources) {
            Some(t) => t,
            None => String::new(),
        };
        self._audio_list_string = match json_string(&self._audio_list_string) {
            Some(t) => t,
            None => String::new(),
        };
    }
}

impl Convertable for Playlist {
    /// Fills the text columns (see [`Playlist::fill_text_columns`]).
    fn convert_to_string(&mut self)
        ensures
            final(self)._sources_string@ == or_empty(json_of_string_list(old(self).sources.deep_view())),
            final(self)._audio_list_string@ == or_empty(json_of_string(old(self)._audio_list_string@)),
            final(self).id == old(self).id,
            final(self).name == old(self).name,
            final(self).sources == old(self).sources,
            final(self).image_url == old(self).image_url,
            final(self).created_at == old(self).created_at,
            final(self).listened_at == old(self).listened_at,
            final(self).audio_list == old(self).audio_list,
    {
        self.fill_text_columns();
    }
}

} // verus!
