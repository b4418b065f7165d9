//! An audio track of the index.
use crate::database_types::{Convertable, CreateKey, GetQuery, Instanceable, SqlQueries};
use crate::text::{
    bool_text, bool_to_string, decimal, i32_to_string, join_comma, join_with, signed_decimal,
    string_from, u64_to_string, views,
};
use vstd::prelude::*;

verus! {

/// The insert statement of the `tracks` table.
pub const TRACK_INSERT: &'static str = "
				INSERT INTO tracks (title, artist, path, extension, file_size, duration, playing)
				VALUES (?, ?, ?, ?, ?, ?, ?);
			";

/// The select statement of the `tracks` table.
pub const TRACK_SELECT: &'static str = "SELECT * FROM tracks;";

/// The update statement of the `tracks` table.
pub const TRACK_UPDATE: &'static str = "
				UPDATE tracks
				SET
					title = (title),
					artist = (artist),
					path = (path),
					extension = (extension),
					file_size = (file_size),
					duration = (duration),
					playing = (playing),
				WHERE id = (id)
				VALUES (?, ?, ?, ?, ?, ?, ?, ?);
    		";

/// The delete statement of the `tracks` table.
pub const TRACK_DELETE: &'static str = "
				DELETE FROM tracks WHERE id = (id)
				VALUES (?);
			";

/// An audio file known to the player.
pub struct Track {
    pub id: i32,
    pub title: String,
    pub artist: String,
    pub path: String,
    pub genre: String,
    pub year: u32,
    pub extension: String,
    pub duration: i32,
    pub file_size: i32,
    pub playing: bool,
}

impl Clone for Track {
    fn clone(&self) -> (r: Self)
        ensures
            r == *self,
    {
        Track {
            id: self.id,
            title: self.title.clone(),
            artist: self.artist.clone(),
            path: self.path.clone(),
            genre: self.genre.clone(),
            year: self.year,
            extension: self.extension.clone(),
            duration: self.duration,
            file_size: self.file_size,
            playing: self.playing,
        }
    }
}

impl Track {
    /// The fields as they display, in order.
    pub open spec fn display_parts(&self) -> Seq<Seq<char>> {
        seq![
            self.title@,
            self.artist@,
            self.path@,
            self.genre@,
            decimal(self.year as nat),
            self.extension@,
            signed_decimal(self.duration as int),
            signed_decimal(self.file_size as int),
            bool_text(self.playing),
        ]
    }

    /// The text the track displays as: its fields but the id, separated by `", "`.
    pub fn to_display_string(&self) -> (r: String)
        ensures
            r@ == join_with(self.display_parts(), seq![',', ' ']),
    {
        let mut parts: Vec<String> = Vec::new();
        parts.push(self.title.clone());
        parts.push(self.artist.clone());
        parts.push(self.path.clone());
        parts.push(self.genre.clone());
        parts.push(u64_to_string(self.year as u64));
        parts.push(self.extension.clone());
        parts.push(i32_to_string(self.duration));
        parts.push(i32_to_string(self.file_size));
        parts.push(bool_to_string(self.playing));
        assert(views(parts@) =~= self.display_parts());
        join_comma(&parts)
    }
}

impl Instanceable for Track {
    open spec fn is_blank(&self) -> bool {
        &&& self.id == 0
        &&& self.title@ == Seq::<char>::empty()
        &&& self.artist@ == Seq::<char>::empty()
        &&& self.path@ == Seq::<char>::empty()
        &&& self.genre@ == Seq::<char>::empty()
        &&& self.year == 0
        &&& self.extension@ == Seq::<char>::empty()
        &&& self.file_size == 0
        &&& self.duration == 0
        &&& !self.playing
    }

    fn new() -> (r: Self) {
        Self {
            id: 0,
            title: String::new(),
            artist: String::new(),
            path: String::new(),
            genre: String::new(),
            year: 0,
            extension: String::new(),
            file_size: 0,
            duration: 0,
            playing: false,
        }
    }
}

impl CreateKey for Track {
    open spec fn key_view(&self) -> Seq<char> {
        self.path@
    }

    fn create_key(&self) -> (r: String) {
        self.path.clone()
    }
}

impl GetQuery for Track {
    open spec fn query_view(&self, query: SqlQueries) -> Seq<char> {
        match query {
            SqlQueries::Insert => TRACK_INSERT@,
            SqlQueries::Select => TRACK_SELECT@,
            SqlQueries::Update => TRACK_UPDATE@,
            SqlQueries::Delete => TRACK_DELETE@,
            _ => Seq::empty(),
        }
    }

    fn get_query(&self, query: SqlQueries) -> (r: String) {
        match query {
            SqlQueries::Insert => string_from(TRACK_INSERT),
            SqlQueries::Select => string_from(TRACK_SELECT),
            SqlQueries::Update => string_from(TRACK_UPDATE),
            SqlQueries::Delete => string_from(TRACK_DELETE),
            _ => String::new(),
        }
    }
}

impl Convertable for Track {
    /// This record has no text columns to fill: nothing changes.
    fn convert_to_string(&mut self)
        ensures
            *final(self) == *old(self),
    {
    }
}

} // verus!
