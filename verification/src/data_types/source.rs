//! A place tracks are read from.
use crate::database_types::{Convertable, CreateKey, GetQuery, Instanceable, SqlQueries};
use crate::text::{join_comma, join_with, string_from, views};
use vstd::prelude::*;

verus! {

/// The insert statement of the `sources` table.
pub const SOURCE_INSERT: &'static str = "
				INSERT INTO sources (origin, path)
				VALUES (?, ?);
			";

/// The select statement of the `sources` table.
pub const SOURCE_SELECT: &'static str = "SELECT * FROM sources;";

/// The update statement of the `sources` table.
pub const SOURCE_UPDATE: &'static str = "
				UPDATE sources
				SET
					origin = (origin),
					path = (path),
				WHERE path = (path)
				VALUES (?, ?);
			";

/// The delete statement of the `sources` table.
pub const SOURCE_DELETE: &'static str = "
				DELETE FROM sources WHERE path = (path)
				VALUES (?);
			";

/// A source of tracks: where it lives (`origin`, such as `"local"`) and its path.
pub struct Source {
    pub origin: String,
    pub path: String,
}

impl Clone for Source {
    fn clone(&self) -> (r: Self)
        ensures
            r == *self,
    {
        Source { origin: self.origin.clone(), path: self.path.clone() }
    }
}

impl Source {
    /// The text the source displays as: `"origin, path"`.
    pub fn to_display_string(&self) -> (r: String)
        ensures
            r@ == join_with(seq![self.origin@, self.path@], seq![',', ' ']),
    {
        let mut parts: Vec<String> = Vec::new();
        parts.push(self.origin.clone());
        parts.push(self.path.clone());
        assert(views(parts@) =~= seq![self.origin@, self.path@]);
        join_comma(&parts)
    }
}

impl Instanceable for Source {
    open spec fn is_blank(&self) -> bool {
        &&& self.origin@ == Seq::<char>::empty()
        &&& self.path@ == Seq::<char>::empty()
    }

    fn new() -> (r: Self) {
        Self { origin: String::new(), path: String::new() }
    }
}

impl CreateKey for Source {
    open spec fn key_view(&self) -> Seq<char> {
        self.path@
    }

    fn create_key(&self) -> (r: String) {
        self.path.clone()
    }
}

impl GetQuery for Source {
    open spec fn query_view(&self, query: SqlQueries) -> Seq<char> {
        match query {
            SqlQueries::Insert => SOURCE_INSERT@,
            SqlQueries::Select => SOURCE_SELECT@,
            SqlQueries::Update => SOURCE_UPDATE@,
            SqlQueries::Delete => SOURCE_DELETE@,
            SqlQueries::SelectByRelation => Seq::empty(),
            SqlQueries::UpdateRelations => Seq::empty(),
        }
    }

    fn get_query(&self, query: SqlQueries) -> (r: String) {
        match query {
            SqlQueries::Insert => string_from(SOURCE_INSERT),
            SqlQueries::Select => string_from(SOURCE_SELECT),
            SqlQueries::Update => string_from(SOURCE_UPDATE),
            SqlQueries::Delete => string_from(SOURCE_DELETE),
            SqlQueries::SelectByRelation => String::new(),
            SqlQueries::UpdateRelations => String::new(),
        }
    }
}

impl Convertable for Source {
    /// This record has no text columns to fill: nothing changes.
    fn convert_to_string(&mut self)
        ensures
            *final(self) == *old(self),
    {
    }
}

} // verus!
