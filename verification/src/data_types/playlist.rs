//! Playlists and albums.
use crate::data_types::source::Source;
use crate::database_types::{CreateKey, GetQuery, Instanceable, SqlQueries};
use crate::text::string_from;
use vstd::prelude::*;

verus! {

/// The insert statement of the `playlists` table.
pub const PLAYLIST_INSERT: &'static str = "
				INSERT INTO playlists (name, list_type, image_url, artist)
				VALUES (?, ?, ?, ?);
			";

/// The select statement of the `playlists` table.
pub const PLAYLIST_SELECT: &'static str = "SELECT * FROM playlists;";

/// The update statement of the `playlists` table.
pub const PLAYLIST_UPDATE: &'static str = "
				UPDATE playlists
				SET
					name = (name),
					list = (list_type),
					image_url = (image_url),
					artist = (artist),
				WHERE name = (name)
				VALUES (?, ?, ?, ?);
			";

/// The delete statement of the `playlists` table.
pub const PLAYLIST_DELETE: &'static str = "
				DELETE FROM playlists WHERE name = (name)
				VALUES (?);
			";

/// A track of a playlist, with the time (seconds since the epoch, as text) it was added.
pub struct AudioEntry {
    pub id: i32,
    pub added_at: String,
}

impl Clone for AudioEntry {
    fn clone(&self) -> (r: Self)
        ensures
            r == *self,
    {
        AudioEntry { id: self.id, added_at: self.added_at.clone() }
    }
}

/// A playlist or an album.
pub struct Playlist {
    pub id: i32,
    pub name: String,
    pub artist: Option<String>,
    pub list_type: String,
    pub image_url: String,
    pub created_at: String,
    pub listened_at: String,
    pub tracks: Option<Vec<AudioEntry>>,
    pub sources: Option<Vec<Source>>,
}

impl Instanceable for Playlist {
    open spec fn is_blank(&self) -> bool {
        &&& self.id == 0
        &&& self.name@ == Seq::<char>::empty()
        &&& self.artist is None
        &&& self.list_type@ == Seq::<char>::empty()
        &&& self.image_url@ == Seq::<char>::empty()
        &&& self.created_at@ == Seq::<char>::empty()
        &&& self.listened_at@ == Seq::<char>::empty()
        &&& self.tracks is None
        &&& self.sources is None
    }

    fn new() -> (r: Self) {
        Self {
            id: 0,
            name: String::new(),
            list_type: String::new(),
            artist: None,
            image_url: String::new(),
            created_at: String::new(),
            listened_at: String::new(),
            tracks: None,
            sources: None,
        }
    }
}

impl CreateKey for Playlist {
    open spec fn key_view(&self) -> Seq<char> {
        self.name@
    }

    fn create_key(&self) -> (r: String) {
        self.name.clone()
    }
}

impl GetQuery for Playlist {
    open spec fn query_view(&self, query: SqlQueries) -> Seq<char> {
        match query {
            SqlQueries::Insert => PLAYLIST_INSERT@,
            SqlQueries::Select => PLAYLIST_SELECT@,
            SqlQueries::Update => PLAYLIST_UPDATE@,
            SqlQueries::Delete => PLAYLIST_DELETE@,
            _ => Seq::empty(),
        }
    }

    fn get_query(&self, query: SqlQueries) -> (r: String) {
        match query {
            SqlQueries::Insert => string_from(PLAYLIST_INSERT),
            SqlQueries::Select => string_from(PLAYLIST_SELECT),
            SqlQueries::Update => string_from(PLAYLIST_UPDATE),
            SqlQueries::Delete => string_from(PLAYLIST_DELETE),
            _ => String::new(),
        }
    }
}

} // verus!
